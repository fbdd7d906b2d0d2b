//! The engine session lifecycle: database open, connection, statements,
//! and the reverse-order teardown the engine demands (connection before
//! database), each step exactly once on every exit path.
//!
//! The machine decides; the caller performs each step against the engine
//! and reports the outcome.  The transition contracts make it impossible
//! to close the database while the connection stands, or to close either
//! twice.

use vstd::prelude::*;

verus! {

/// Errors of the engine's control surface.
#[derive(Clone, Debug, PartialEq, Eq)]
pub enum EngineError {
    /// The engine instance could not be opened.
    EngineUnavailable,
    /// The connection to an open engine could not be made.
    ConnectFailed,
    /// A setup statement failed; the engine's message, verbatim.
    Statement(String),
    /// A batch fetch failed mid-stream; the engine's message, verbatim.
    Fetch(String),
}

/// Where a session stands.
#[derive(Clone, Copy, Debug, PartialEq, Eq, Structural)]
pub enum SessionPhase {
    /// Nothing acquired yet.
    Start,
    /// The database is open, no connection yet (or no longer).
    DbOpen,
    /// Database open and connection standing.
    Connected,
    /// Everything released, or the opening itself failed (nothing to
    /// release).
    Done,
}

/// The lifecycle of one engine session.
pub struct EngineSession {
    pub phase: SessionPhase,
}

impl EngineSession {
    /// A session with nothing acquired.
    pub fn new() -> (s: Self)
        ensures
            s.phase == SessionPhase::Start,
    {
        EngineSession { phase: SessionPhase::Start }
    }

    /// Records that the database opened.
    pub fn on_open_ok(&mut self)
        requires
            old(self).phase == SessionPhase::Start,
        ensures
            final(self).phase == SessionPhase::DbOpen,
    {
        self.phase = SessionPhase::DbOpen;
    }

    /// Records that opening failed: nothing was acquired, nothing is owed.
    pub fn on_open_failed(&mut self)
        requires
            old(self).phase == SessionPhase::Start,
        ensures
            final(self).phase == SessionPhase::Done,
    {
        self.phase = SessionPhase::Done;
    }

    /// Records that the connection was made.
    pub fn on_connect_ok(&mut self)
        requires
            old(self).phase == SessionPhase::DbOpen,
        ensures
            final(self).phase == SessionPhase::Connected,
    {
        self.phase = SessionPhase::Connected;
    }

    /// Records that connecting failed: the database is still open and must
    /// still be closed.
    pub fn on_connect_failed(&mut self)
        requires
            old(self).phase == SessionPhase::DbOpen,
        ensures
            final(self).phase == SessionPhase::DbOpen,
    {
    }

    /// Records that the connection was closed.  Only a standing connection
    /// can be closed, and only once.
    pub fn on_connection_closed(&mut self)
        requires
            old(self).phase == SessionPhase::Connected,
        ensures
            final(self).phase == SessionPhase::DbOpen,
    {
        self.phase = SessionPhase::DbOpen;
    }

    /// Records that the database was closed.  The connection must be gone
    /// first: teardown is the reverse of acquisition.
    pub fn on_database_closed(&mut self)
        requires
            old(self).phase == SessionPhase::DbOpen,
        ensures
            final(self).phase == SessionPhase::Done,
    {
        self.phase = SessionPhase::Done;
    }
}

/// The decision after the attempt to open the engine: a failure is
/// `EngineUnavailable`, fatal at startup.
pub fn open_outcome(success: bool) -> (r: Result<(), EngineError>)
    ensures
        success <==> r is Ok,
        !success ==> r == Err::<(), EngineError>(EngineError::EngineUnavailable),
{
    if success {
        Ok(())
    } else {
        Err(EngineError::EngineUnavailable)
    }
}

/// The decision after the attempt to connect to an open engine: a failure
/// is `ConnectFailed`, fatal at startup.
pub fn connect_outcome(success: bool) -> (r: Result<(), EngineError>)
    ensures
        success <==> r is Ok,
        !success ==> r == Err::<(), EngineError>(EngineError::ConnectFailed),
{
    if success {
        Ok(())
    } else {
        Err(EngineError::ConnectFailed)
    }
}

/// The decision inside a statement execution: a success status is `Ok`, a
/// failure surfaces the engine's message verbatim, and nothing else.
pub fn statement_outcome(success: bool, error_message: String) -> (r: Result<(), EngineError>)
    ensures
        success <==> r is Ok,
        !success ==> r == Err::<(), EngineError>(EngineError::Statement(error_message)),
{
    if success {
        Ok(())
    } else {
        Err(EngineError::Statement(error_message))
    }
}

/// The decision after a batch-fetch call: a success status is `Ok`, a
/// failure surfaces the engine's message verbatim, and nothing else.
pub fn fetch_outcome(success: bool, error_message: String) -> (r: Result<(), EngineError>)
    ensures
        success <==> r is Ok,
        !success ==> r == Err::<(), EngineError>(EngineError::Fetch(error_message)),
{
    if success {
        Ok(())
    } else {
        Err(EngineError::Fetch(error_message))
    }
}

} // verus!
