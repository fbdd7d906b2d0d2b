//! Bridge from a columnar query engine's batch-exchange protocol to an
//! in-process table and per-batch column sums.
//!
//! Result batches arrive as raw array/schema descriptor pairs.  The library
//! models the descriptors as plain values, interprets them as typed arrays,
//! assembles the arrays into a table of named columns, and reduces each
//! column to a sum.  A small state machine governs the fetch loop: how many
//! rows are still owed, the one terminal fetch the protocol demands after
//! the row budget is exhausted, and the single destruction of the result
//! handle.

mod aggregate;
mod descriptor;
mod import;
mod kinds;
mod session;
mod stream;
mod table;
mod value;

pub use aggregate::AggCell;
pub use aggregate::AggValue;
pub use aggregate::AggregateRow;
pub use aggregate::f64_sum_bits;
pub use aggregate::spec_sum_columns;
pub use aggregate::spec_sum_i32;
pub use aggregate::sum_columns;
pub use aggregate::sum_i32_cells;
pub use descriptor::ArrayDescriptor;
pub use descriptor::SchemaDescriptor;
pub use descriptor::lemma_one_id_per_node;
pub use import::ImportError;
pub use import::ImportFailure;
pub use import::ImportedValue;
pub use import::count_false;
pub use import::import;
pub use import::import_tree;
pub use import::lemma_type_tag_fidelity;
pub use import::prim_ok;
pub use import::release_descriptor;
pub use import::release_imported;
pub use import::spec_valid;
pub use import::struct_meta_ok;
pub use import::le32_at;
pub use import::le64_at;
pub use import::lemma_import_wf;
pub use import::model_import_result;
pub use import::spec_import;
pub use import::spec_import_fields;
pub use kinds::ElementKind;
pub use kinds::FormatKind;
pub use kinds::parse_format;
pub use kinds::spec_parse_format;
pub use session::EngineError;
pub use session::EngineSession;
pub use session::SessionPhase;
pub use session::connect_outcome;
pub use session::fetch_outcome;
pub use session::open_outcome;
pub use session::statement_outcome;
pub use stream::ResultStream;
pub use stream::StreamAction;
pub use stream::lemma_row_conservation;
pub use stream::lemma_terminal_fetch_discipline;
pub use stream::sum_u64;
pub use table::AssembleError;
pub use table::Column;
pub use table::Table;
pub use table::assemble;
pub use value::CellsModel;
pub use value::ColumnCells;
pub use value::FieldModel;
pub use value::StructField;
pub use value::TypedValue;
pub use value::ValueModel;
pub use value::cells_model;
pub use value::fields_model;
pub use value::value_model;
