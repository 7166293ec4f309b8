//! The in-memory table as the adapter sees it: an ordered list of named,
//! typed columns of plain cell values, all of one height. The columnar
//! engine that really owns the data is outside; the shell converts.

use vstd::prelude::*;

use crate::types::{CellValue, SemanticType};

verus! {

/// One column: a name, a semantic type, and the cells top to bottom.
#[derive(Clone, Debug)]
pub struct Column {
    pub name: String,
    pub dtype: SemanticType,
    pub values: Vec<CellValue>,
}

/// An in-memory table: columns in schema order.
#[derive(Clone, Debug)]
pub struct LocalTable {
    pub columns: Vec<Column>,
}

impl LocalTable {
    /// The common height of the columns (0 for a table without columns).
    pub open spec fn spec_height(&self) -> nat {
        if self.columns@.len() == 0 {
            0
        } else {
            self.columns@[0].values@.len()
        }
    }

    /// Well-formed: every column holds exactly one cell per row.
    pub open spec fn wf(&self) -> bool {
        forall|i: int|
            0 <= i < self.columns@.len() ==> (#[trigger] self.columns@[i]).values@.len()
                == self.spec_height()
    }

    /// Builds a table from columns, refusing ragged input: `Some` exactly
    /// when all columns share one height.
    pub fn from_columns(columns: Vec<Column>) -> (r: Option<LocalTable>)
        ensures
            r matches Some(t) ==> t.columns == columns && t.wf(),
            r is None ==> exists|i: int, j: int|
                0 <= i < columns@.len() && 0 <= j < columns@.len() && columns@[i].values@.len()
                    != columns@[j].values@.len(),
    {
        let mut i: usize = 0;
        let height: usize = if columns.len() == 0 {
            0
        } else {
            columns[0].values.len()
        };
        while i < columns.len()
            invariant
                i <= columns.len(),
                columns@.len() > 0 ==> height == columns@[0].values@.len(),
                columns@.len() == 0 ==> height == 0,
                forall|k: int|
                    0 <= k < i ==> (#[trigger] columns@[k]).values@.len() == height,
            decreases columns.len() - i,
        {
            if columns[i].values.len() != height {
                return None;
            }
            i = i + 1;
        }
        Some(LocalTable { columns })
    }

    /// The number of rows.
    pub fn row_count(&self) -> (h: usize)
        requires
            self.wf(),
        ensures
            h == self.spec_height(),
    {
        if self.columns.len() == 0 {
            0
        } else {
            self.columns[0].values.len()
        }
    }

    /// The number of columns.
    pub fn column_count(&self) -> (w: usize)
        ensures
            w == self.columns@.len(),
    {
        self.columns.len()
    }
}

} // verus!
