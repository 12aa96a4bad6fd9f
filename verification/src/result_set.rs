//! Collecting the first result set of a query stream.
//!
//! A query stream yields metadata and row items, each tagged with the index
//! of the result set it belongs to. The collector keeps the first result
//! set's column metadata and its rows, in order, and asks to stop as soon
//! as an item of a later result set appears.

use vstd::prelude::*;
use crate::types::CellValue;
use crate::types::ColumnType;

verus! {

/// One item of a query stream.
pub enum ResultEvent {
    /// The column metadata that opens result set `result_index`.
    Metadata { result_index: usize, columns: Vec<(String, ColumnType)> },
    /// One row of result set `result_index`.
    RowData { result_index: usize, cells: Vec<CellValue> },
}

/// The first result set, as collected so far.
pub struct ResultCollector {
    pub meta: Option<Vec<(String, ColumnType)>>,
    pub rows: Vec<Vec<CellValue>>,
}

impl ResultCollector {
    /// An empty collector: no metadata seen, no rows.
    pub fn new() -> (c: ResultCollector)
        ensures
            c.meta is None,
            c.rows@ == Seq::<Vec<CellValue>>::empty(),
    {
        let c = ResultCollector { meta: None, rows: Vec::new() };
        proof {
            assert(c.rows@ =~= Seq::<Vec<CellValue>>::empty());
        }
        c
    }

    /// Takes one stream item; the result says whether to keep pulling.
    ///
    /// Metadata of the first result set is kept; a row of the first result
    /// set is appended; anything belonging to a later result set stops the
    /// collection, unchanged.
    pub fn step(&mut self, item: ResultEvent) -> (more: bool)
        ensures
            item matches ResultEvent::Metadata { result_index, columns } ==> (if result_index == 0 {
                final(self).meta == Some(columns) && final(self).rows == old(self).rows && more
            } else {
                *final(self) == *old(self) && !more
            }),
            item matches ResultEvent::RowData { result_index, cells } ==> (if result_index == 0 {
                final(self).meta == old(self).meta && final(self).rows@ == old(self).rows@.push(
                    cells,
                ) && more
            } else {
                *final(self) == *old(self) && !more
            }),
    {
        match item {
            ResultEvent::Metadata { result_index, columns } => {
                if result_index == 0 {
                    self.meta = Some(columns);
                    true
                } else {
                    false
                }
            },
            ResultEvent::RowData { result_index, cells } => {
                if result_index == 0 {
                    self.rows.push(cells);
                    true
                } else {
                    false
                }
            },
        }
    }
}

} // verus!
