use crate::product::{pairs, spec_pairs};
use crate::table::Table;
use vstd::prelude::*;

verus! {

/// The indices of the cells of a table, in the order in which they are made:
/// column by column, and within a column row by row.
pub open spec fn spec_cell_indices(table: Table) -> Seq<(u32, u32)> {
    Seq::new(
        table.spec_cell_count(),
        |i: int| ((i / table.spec_col_len() as int) as u32, (i % table.spec_col_len() as int) as u32),
    )
}

/// The numbers `0..=last`, in order.
pub open spec fn spec_through(last: u32) -> Seq<u32> {
    Seq::new((last + 1) as nat, |i: int| i as u32)
}

/// The numbers `0..=last`, in order.
pub fn through(last: u32) -> (r: Vec<u32>)
    requires
        last + 1 <= usize::MAX,
    ensures
        r@ == spec_through(last),
{
    let mut r: Vec<u32> = Vec::new();
    let mut i: u32 = 0;
    while i < last
        invariant
            i <= last,
            r@.len() == i,
            forall|k: int| 0 <= k < i ==> r@[k] == k,
        decreases last - i,
    {
        r.push(i);
        i = i + 1;
    }
    r.push(last);
    assert(r@ =~= spec_through(last));
    r
}

/// A position in the order of cells splits into a column and a row of the table.
pub proof fn lemma_index_split(table: Table, i: int)
    requires
        0 <= i < table.spec_cell_count(),
    ensures
        0 <= i / table.spec_col_len() as int <= table.num_cols,
        0 <= i % table.spec_col_len() as int <= table.num_rows,
{
    let rows = table.spec_col_len() as int;
    let cols = table.spec_row_len() as int;
    assert(0 <= i / rows < cols && 0 <= i % rows < rows) by (nonlinear_arith)
        requires
            0 <= i < cols * rows,
            rows > 0,
    ;
}

/// The indices of the cells of a table: every column index `0..=num_cols` with
/// every row index `0..=num_rows`, the column varying slowest.
pub fn cell_indices(table: &Table) -> (r: Vec<(u32, u32)>)
    requires
        table.spec_cell_count() <= usize::MAX,
    ensures
        r@ == spec_cell_indices(*table),
        r@.len() == (table.num_cols + 1) * (table.num_rows + 1),
{
    proof {
        let rows = table.spec_col_len() as int;
        let cols = table.spec_row_len() as int;
        assert(cols <= cols * rows && rows <= cols * rows) by (nonlinear_arith)
            requires
                cols >= 1,
                rows >= 1,
        ;
    }
    let cols = through(table.num_cols);
    let rows = through(table.num_rows);
    let r = pairs(&cols, &rows);
    proof {
        assert forall|i: int| 0 <= i < table.spec_cell_count() implies spec_pairs(cols@, rows@)[i]
            == spec_cell_indices(*table)[i] by {
            lemma_index_split(*table, i);
        }
        assert(r@ =~= spec_cell_indices(*table));
    }
    r
}

} // verus!
