//! The fetch-loop state machine for one result handle.
//!
//! The engine announces the total row count up front; real batches are
//! fetched strictly in order until the consumed rows reach that total.
//! The protocol then demands exactly one further fetch — the terminal
//! fetch — whose returned descriptor is discarded unread and whose only
//! purpose is to let the engine release what it still retains; after it
//! the handle is destroyed, exactly once.  A failed fetch is fatal: no
//! retry, straight to destruction.
//!
//! The machine decides; the caller performs each action against the engine
//! and reports what happened.  The transition contracts make a terminal
//! fetch impossible once one was recorded and a destruction impossible
//! once one was recorded, which is the exactly-once discipline.

use vstd::prelude::*;

verus! {

/// What the fetch loop must do next.
#[derive(Clone, Copy, Debug, PartialEq, Eq, Structural)]
pub enum StreamAction {
    /// Fetch the next real batch.
    FetchBatch,
    /// The row budget is exhausted: make the one terminal fetch and
    /// discard its descriptor unread.
    TerminalFetch,
    /// Destroy the result handle.
    Destroy,
    /// Nothing is left to do.
    Done,
}

/// The sum of a sequence of batch lengths.
pub open spec fn sum_u64(s: Seq<u64>) -> int
    decreases s,
{
    if s.len() == 0 {
        0
    } else {
        sum_u64(s.subrange(0, s.len() - 1)) + s[s.len() - 1]
    }
}

/// Appending one batch adds its length to the sum.
pub proof fn lemma_sum_u64_push(s: Seq<u64>, x: u64)
    ensures
        sum_u64(s.push(x)) == sum_u64(s) + x,
{
    assert(s.push(x).subrange(0, s.push(x).len() - 1) =~= s);
    assert(s.push(x)[s.push(x).len() - 1] == x);
}

/// The consumption state of one result handle.
pub struct ResultStream {
    /// Total rows across all batches, announced by the engine up front.
    pub total_rows: u64,
    /// Rows consumed by the real batches recorded so far.
    pub rows_consumed: u64,
    /// The length of every real batch recorded, in fetch order.
    pub batch_lens: Vec<u64>,
    /// Whether the one terminal fetch was made.
    pub terminal_fetched: bool,
    /// Whether the handle was destroyed.
    pub destroyed: bool,
    /// Whether a fetch failed; fatal, no retry.
    pub failed: bool,
}

impl ResultStream {
    /// The machine's invariant: the consumed count is the sum of the
    /// recorded batch lengths and never passes the announced total; the
    /// terminal fetch happens only at the exhausted budget of an
    /// unfailed run; destruction follows the terminal fetch or a failure.
    pub open spec fn wf(self) -> bool {
        &&& self.rows_consumed == sum_u64(self.batch_lens@)
        &&& self.rows_consumed <= self.total_rows
        &&& (self.terminal_fetched ==> self.rows_consumed == self.total_rows && !self.failed)
        &&& (self.failed ==> !self.terminal_fetched)
        &&& (self.destroyed ==> self.terminal_fetched || self.failed)
    }

    /// What the loop owes the engine next.
    pub open spec fn spec_next_action(self) -> StreamAction {
        if self.destroyed {
            StreamAction::Done
        } else if self.failed {
            StreamAction::Destroy
        } else if self.rows_consumed < self.total_rows {
            StreamAction::FetchBatch
        } else if !self.terminal_fetched {
            StreamAction::TerminalFetch
        } else {
            StreamAction::Destroy
        }
    }

    /// Starts consuming a fresh result handle that announced this total.
    pub fn new(total_rows: u64) -> (s: Self)
        ensures
            s.wf(),
            s.total_rows == total_rows,
            s.rows_consumed == 0,
            s.batch_lens@ == Seq::<u64>::empty(),
            !s.terminal_fetched,
            !s.destroyed,
            !s.failed,
    {
        ResultStream {
            total_rows,
            rows_consumed: 0,
            batch_lens: Vec::new(),
            terminal_fetched: false,
            destroyed: false,
            failed: false,
        }
    }

    /// Reports what the loop owes the engine next.
    pub fn next_action(&self) -> (a: StreamAction)
        ensures
            a == self.spec_next_action(),
    {
        if self.destroyed {
            StreamAction::Done
        } else if self.failed {
            StreamAction::Destroy
        } else if self.rows_consumed < self.total_rows {
            StreamAction::FetchBatch
        } else if !self.terminal_fetched {
            StreamAction::TerminalFetch
        } else {
            StreamAction::Destroy
        }
    }

    /// Rows the engine still owes.
    pub fn rows_remaining(&self) -> (n: u64)
        requires
            self.wf(),
        ensures
            n == self.total_rows - self.rows_consumed,
    {
        self.total_rows - self.rows_consumed
    }

    /// Records one real batch of `n` rows.  The engine announced the total
    /// up front, so no batch carries more rows than are still owed.
    pub fn record_batch(&mut self, n: u64)
        requires
            old(self).wf(),
            old(self).spec_next_action() == StreamAction::FetchBatch,
            n <= old(self).total_rows - old(self).rows_consumed,
        ensures
            final(self).wf(),
            final(self).batch_lens@ == old(self).batch_lens@.push(n),
            final(self).rows_consumed == old(self).rows_consumed + n,
            final(self).total_rows == old(self).total_rows,
            final(self).terminal_fetched == old(self).terminal_fetched,
            final(self).destroyed == old(self).destroyed,
            final(self).failed == old(self).failed,
    {
        proof {
            lemma_sum_u64_push(self.batch_lens@, n);
        }
        self.rows_consumed = self.rows_consumed + n;
        self.batch_lens.push(n);
    }

    /// Records that a fetch failed; the run is fatal and only destruction
    /// remains.
    pub fn record_fetch_error(&mut self)
        requires
            old(self).wf(),
            old(self).spec_next_action() == StreamAction::FetchBatch,
        ensures
            final(self).wf(),
            final(self).failed,
            final(self).batch_lens@ == old(self).batch_lens@,
            final(self).rows_consumed == old(self).rows_consumed,
            final(self).total_rows == old(self).total_rows,
            final(self).terminal_fetched == old(self).terminal_fetched,
            final(self).destroyed == old(self).destroyed,
    {
        self.failed = true;
    }

    /// Records the one terminal fetch, owed exactly when the budget is
    /// exhausted and not yet made; its descriptor was discarded unread.
    pub fn record_terminal_fetch(&mut self)
        requires
            old(self).wf(),
            old(self).spec_next_action() == StreamAction::TerminalFetch,
        ensures
            final(self).wf(),
            final(self).terminal_fetched,
            final(self).rows_consumed == final(self).total_rows,
            final(self).batch_lens@ == old(self).batch_lens@,
            final(self).rows_consumed == old(self).rows_consumed,
            final(self).total_rows == old(self).total_rows,
            final(self).destroyed == old(self).destroyed,
            final(self).failed == old(self).failed,
    {
        self.terminal_fetched = true;
    }

    /// Records the destruction of the result handle, owed exactly once,
    /// after the terminal fetch or after a failure.
    pub fn record_destroy(&mut self)
        requires
            old(self).wf(),
            old(self).spec_next_action() == StreamAction::Destroy,
        ensures
            final(self).wf(),
            final(self).destroyed,
            final(self).batch_lens@ == old(self).batch_lens@,
            final(self).rows_consumed == old(self).rows_consumed,
            final(self).total_rows == old(self).total_rows,
            final(self).terminal_fetched == old(self).terminal_fetched,
            final(self).failed == old(self).failed,
    {
        self.destroyed = true;
    }
}

/// Row conservation: at every reachable state the rows consumed are the
/// sum of the real batch lengths, and a run that was destroyed without a
/// failure consumed exactly the announced total.
pub proof fn lemma_row_conservation(s: ResultStream)
    requires
        s.wf(),
    ensures
        s.rows_consumed == sum_u64(s.batch_lens@),
        s.destroyed && !s.failed ==> sum_u64(s.batch_lens@) == s.total_rows,
{
}

/// The terminal handshake: a destroyed, unfailed stream made the terminal
/// fetch, and made it with the budget exhausted; a failed stream never
/// makes one.  Together with the transition contracts — a terminal fetch
/// is only accepted while none was recorded, a destruction only while the
/// handle stands — each happens exactly once per run.
pub proof fn lemma_terminal_fetch_discipline(s: ResultStream)
    requires
        s.wf(),
        s.destroyed,
    ensures
        !s.failed ==> s.terminal_fetched && s.rows_consumed == s.total_rows,
        s.failed ==> !s.terminal_fetched,
{
}

} // verus!
