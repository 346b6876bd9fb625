use crate::grid::{spec_updated_cells, Cell, Grid};
use crate::indices::{lemma_index_split, spec_cell_indices};
use crate::layout::{
    lemma_centre_value, lemma_extent_value, spec_cell_centre, spec_cell_extent,
};
use crate::sample::spec_exceeds_half;
use vstd::prelude::*;

verus! {

/// A laid out table has one cell for each pair of a column index `0..=num_cols`
/// and a row index `0..=num_rows`: `(num_cols + 1) * (num_rows + 1)` cells.
pub proof fn law_cell_count(grid: Grid)
    requires
        grid.wf(),
    ensures
        grid@.len() == (grid.spec_table().num_cols + 1) * (grid.spec_table().num_rows + 1),
{
}

/// The cell at position `i` is the one in column `i / (num_rows + 1)` and row
/// `i % (num_rows + 1)`, and both indices lie within the table.
pub proof fn law_cell_order(grid: Grid, i: int)
    requires
        grid.wf(),
        0 <= i < grid@.len(),
    ensures
        grid@[i].col == i / (grid.spec_table().num_rows + 1),
        grid@[i].row == i % (grid.spec_table().num_rows + 1),
        grid@[i].col <= grid.spec_table().num_cols,
        grid@[i].row <= grid.spec_table().num_rows,
{
    lemma_index_split(grid.spec_table(), i);
    assert(grid@[i].col == spec_cell_indices(grid.spec_table())[i].0);
}

/// Every cell is as wide as the viewport's width over the number of columns,
/// less twice the padding, and as high as the viewport's height over the number
/// of rows, less twice the padding.
pub proof fn law_cell_size(grid: Grid, i: int)
    requires
        grid.wf(),
        0 <= i < grid@.len(),
    ensures
        grid@[i].width.wf(),
        grid@[i].height.wf(),
        grid@[i].width.value() == spec_cell_extent(
            grid.spec_viewport().width,
            grid.spec_table().num_cols,
            grid.spec_padding(),
        ),
        grid@[i].height.value() == spec_cell_extent(
            grid.spec_viewport().height,
            grid.spec_table().num_rows,
            grid.spec_padding(),
        ),
{
    lemma_extent_value(grid.spec_viewport().width, grid.spec_table().num_cols, grid.spec_padding());
    lemma_extent_value(grid.spec_viewport().height, grid.spec_table().num_rows, grid.spec_padding());
    assert(grid@[i].width == grid@[i].width);
}

/// All cells of a table have the same width and the same height.
pub proof fn law_uniform_size(grid: Grid, i: int, j: int)
    requires
        grid.wf(),
        0 <= i < grid@.len(),
        0 <= j < grid@.len(),
    ensures
        grid@[i].width == grid@[j].width,
        grid@[i].height == grid@[j].height,
        grid@[i].width.value() == grid@[j].width.value(),
        grid@[i].height.value() == grid@[j].height.value(),
{
    assert(grid@[i].width == grid@[i].width);
    assert(grid@[j].width == grid@[j].width);
}

/// The centre of a cell lies at its column index times the pitch across (a
/// cell's width and one padding), less a third of the viewport's width; and at
/// its row index times the pitch down, less a third of the viewport's height.
pub proof fn law_cell_centre(grid: Grid, i: int)
    requires
        grid.wf(),
        0 <= i < grid@.len(),
    ensures
        grid@[i].x.wf(),
        grid@[i].y.wf(),
        grid@[i].x.value() == spec_cell_centre(
            grid.spec_viewport().width,
            grid.spec_table().num_cols,
            grid.spec_padding(),
            grid@[i].col,
        ),
        grid@[i].y.value() == spec_cell_centre(
            grid.spec_viewport().height,
            grid.spec_table().num_rows,
            grid.spec_padding(),
            grid@[i].row,
        ),
{
    assert(grid@[i].col == spec_cell_indices(grid.spec_table())[i].0);
    lemma_centre_value(
        grid.spec_viewport().width,
        grid.spec_table().num_cols,
        grid.spec_padding(),
        grid@[i].col,
    );
    lemma_centre_value(
        grid.spec_viewport().height,
        grid.spec_table().num_rows,
        grid.spec_padding(),
        grid@[i].row,
    );
}

/// A layout depends on nothing but the table, the viewport and the padding: two
/// grids made from the same three have the same cells at the same places and of
/// the same sizes, whatever the states of their cells.
pub proof fn law_layout_deterministic(a: Grid, b: Grid)
    requires
        a.wf(),
        b.wf(),
        a.spec_table() == b.spec_table(),
        a.spec_viewport() == b.spec_viewport(),
        a.spec_padding() == b.spec_padding(),
    ensures
        a@.len() == b@.len(),
        forall|i: int| 0 <= i < a@.len() ==> #[trigger] a@[i] == b@[i].with_state(a@[i].on),
{
    assert forall|i: int| 0 <= i < a@.len() implies #[trigger] a@[i] == b@[i].with_state(
        a@[i].on,
    ) by {
        assert(b@[i] == b@[i]);
    }
}

/// An update overwrites: after two updates in a row the cells are as after the
/// second alone.
pub proof fn law_update_overwrites(cells: Seq<Cell>, first: Seq<u64>, second: Seq<u64>)
    requires
        first.len() == cells.len(),
        second.len() == cells.len(),
    ensures
        spec_updated_cells(spec_updated_cells(cells, first), second) == spec_updated_cells(
            cells,
            second,
        ),
{
    assert(spec_updated_cells(spec_updated_cells(cells, first), second) =~= spec_updated_cells(
        cells,
        second,
    ));
}

/// Two updates whose draws fall on different sides of one half for some cell
/// leave that cell in different states.
pub proof fn law_updates_differ(
    cells: Seq<Cell>,
    first: Seq<u64>,
    second: Seq<u64>,
    i: int,
)
    requires
        first.len() == cells.len(),
        second.len() == cells.len(),
        0 <= i < cells.len(),
        spec_exceeds_half(first[i]) != spec_exceeds_half(second[i]),
    ensures
        spec_updated_cells(cells, first)[i].on != spec_updated_cells(cells, second)[i].on,
        spec_updated_cells(cells, first) != spec_updated_cells(cells, second),
{
    assert(spec_updated_cells(cells, first)[i].on == spec_exceeds_half(first[i]));
    assert(spec_updated_cells(cells, second)[i].on == spec_exceeds_half(second[i]));
}

} // verus!
