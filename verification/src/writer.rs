//! A chunking batch writer's bookkeeping: the destination table, the
//! requested column list and the chunk size it was configured with.

use vstd::prelude::*;

verus! {

/// A failure of the batch writer.
#[derive(Debug, PartialEq, Eq, Ord, PartialOrd, Hash, Clone, Structural)]
pub enum WriterError {
    WellSee,
}

impl WriterError {
    /// A human-readable description of the failure.
    pub fn message(&self) -> (m: String)
        ensures
            m@ == "arrow error"@,
    {
        String::from_str("arrow error")
    }
}

/// The configuration a batch writer is created with: the source schema's
/// field names, the destination table, the comma-separated column list and
/// the number of rows per chunk.
pub struct ArrowBatchSqlWriter {
    pub schema_fields: Vec<String>,
    pub table: String,
    pub column_names_csv: String,
    pub chunk_size: usize,
}

impl ArrowBatchSqlWriter {
    /// A writer holding the given configuration.
    pub fn new(
        schema_fields: Vec<String>,
        table: String,
        column_names_csv: String,
        chunk_size: usize,
    ) -> (w: ArrowBatchSqlWriter)
        ensures
            w.schema_fields == schema_fields,
            w.table == table,
            w.column_names_csv == column_names_csv,
            w.chunk_size == chunk_size,
    {
        ArrowBatchSqlWriter { schema_fields, table, column_names_csv, chunk_size }
    }
}

} // verus!
