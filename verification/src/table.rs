use vstd::prelude::*;

verus! {

/// The fixed arrangement of cells: a number of column and row divisions.
///
/// Cell indices run from zero up to and including the number of divisions,
/// so a table has one more column of cells than `num_cols`, and one more row
/// than `num_rows`.
#[derive(Debug, Clone, Copy, PartialEq, Eq, Structural)]
pub struct Table {
    pub num_cols: u32,
    pub num_rows: u32,
}

impl Table {
    /// A table is well formed when it has at least one division each way.
    pub open spec fn wf(self) -> bool {
        self.num_cols > 0 && self.num_rows > 0
    }

    /// Cells in one column: the row indices `0..=num_rows`.
    pub open spec fn spec_col_len(self) -> nat {
        (self.num_rows + 1) as nat
    }

    /// Cells in one row: the column indices `0..=num_cols`.
    pub open spec fn spec_row_len(self) -> nat {
        (self.num_cols + 1) as nat
    }

    /// Number of cells of the table.
    pub open spec fn spec_cell_count(self) -> nat {
        self.spec_row_len() * self.spec_col_len()
    }

    /// The table with the given divisions, or `None` where one of them is zero.
    pub fn new(num_cols: u32, num_rows: u32) -> (r: Option<Table>)
        ensures
            r.is_some() <==> (num_cols > 0 && num_rows > 0),
            r.is_some() ==> r.unwrap().wf() && r.unwrap().num_cols == num_cols
                && r.unwrap().num_rows == num_rows,
    {
        if num_cols > 0 && num_rows > 0 {
            Some(Table { num_cols, num_rows })
        } else {
            None
        }
    }

    /// Number of cells of the table, which always fits in 128 bits.
    pub fn cell_count(&self) -> (n: u128)
        ensures
            n == self.spec_cell_count(),
    {
        let cols: u128 = self.num_cols as u128 + 1;
        let rows: u128 = self.num_rows as u128 + 1;
        assert(cols * rows <= 0x1_0000_0000 * 0x1_0000_0000) by (nonlinear_arith)
            requires
                cols <= 0x1_0000_0000,
                rows <= 0x1_0000_0000,
        ;
        cols * rows
    }
}

} // verus!
