use crate::fraction::Fraction;
use crate::indices::{cell_indices, spec_cell_indices};
use crate::layout::{cell_centre, cell_extent, spec_centre_fraction, spec_extent_fraction};
use crate::sample::{exceeds_half, spec_exceeds_half};
use crate::table::Table;
use vstd::prelude::*;

verus! {

/// The size of the area that the table is laid out in, in whole units of length.
#[derive(Debug, Clone, Copy, PartialEq, Eq, Structural)]
pub struct Viewport {
    pub width: u32,
    pub height: u32,
}

/// One cell of the table: where it is, how large it is, and whether it is on.
#[derive(Debug, Clone, Copy, PartialEq, Eq, Structural)]
pub struct Cell {
    pub col: u32,
    pub row: u32,
    pub x: Fraction,
    pub y: Fraction,
    pub width: Fraction,
    pub height: Fraction,
    pub on: bool,
}

impl Cell {
    /// The same cell, switched on or off.
    pub open spec fn with_state(self, on: bool) -> Cell {
        Cell { on, ..self }
    }
}

/// The cell at `index` (column, row) of a table laid out in a viewport, with the
/// given state.
pub open spec fn spec_cell(
    table: Table,
    viewport: Viewport,
    padding: u32,
    index: (u32, u32),
    on: bool,
) -> Cell {
    Cell {
        col: index.0,
        row: index.1,
        x: spec_centre_fraction(viewport.width, table.num_cols, padding, index.0),
        y: spec_centre_fraction(viewport.height, table.num_rows, padding, index.1),
        width: spec_extent_fraction(viewport.width, table.num_cols, padding),
        height: spec_extent_fraction(viewport.height, table.num_rows, padding),
        on,
    }
}

/// The cells of a freshly laid out table: all of them, in order, and off.
pub open spec fn spec_fresh_cells(table: Table, viewport: Viewport, padding: u32) -> Seq<Cell> {
    Seq::new(
        table.spec_cell_count(),
        |i: int| spec_cell(table, viewport, padding, spec_cell_indices(table)[i], false),
    )
}

/// The cells after an update: each keeps its place and size, and is on exactly
/// where its draw is greater than one half.
pub open spec fn spec_updated_cells(cells: Seq<Cell>, samples: Seq<u64>) -> Seq<Cell>
    recommends
        samples.len() == cells.len(),
{
    Seq::new(
        cells.len(),
        |i: int| cells[i].with_state(spec_exceeds_half(samples[i])),
    )
}

/// The cells of a table, laid out once and then only switched on and off.
pub struct Grid {
    table: Table,
    viewport: Viewport,
    padding: u32,
    cells: Vec<Cell>,
}

impl Grid {
    /// The table that was laid out.
    pub closed spec fn spec_table(self) -> Table {
        self.table
    }

    /// The viewport that the table was laid out in.
    pub closed spec fn spec_viewport(self) -> Viewport {
        self.viewport
    }

    /// The padding that the table was laid out with.
    pub closed spec fn spec_padding(self) -> u32 {
        self.padding
    }

    /// The cells, in the order in which they were made.
    pub closed spec fn view(self) -> Seq<Cell> {
        self.cells@
    }

    /// Every cell of the table is there, once, at its place and of its size.
    pub open spec fn wf(self) -> bool {
        &&& self.spec_table().wf()
        &&& self@.len() == self.spec_table().spec_cell_count()
        &&& forall|i: int|
            0 <= i < self@.len() ==> #[trigger] self@[i] == spec_cell(
                self.spec_table(),
                self.spec_viewport(),
                self.spec_padding(),
                spec_cell_indices(self.spec_table())[i],
                self@[i].on,
            )
    }

    /// Lays the table out in the viewport: one cell for every column index
    /// `0..=num_cols` and row index `0..=num_rows`, column by column, all off.
    pub fn new(table: Table, viewport: Viewport, padding: u32) -> (r: Grid)
        requires
            table.wf(),
            table.spec_cell_count() <= usize::MAX,
        ensures
            r.wf(),
            r.spec_table() == table,
            r.spec_viewport() == viewport,
            r.spec_padding() == padding,
            r@ == spec_fresh_cells(table, viewport, padding),
            r@.len() == (table.num_cols + 1) * (table.num_rows + 1),
    {
        let indices = cell_indices(&table);
        let width = cell_extent(viewport.width, table.num_cols, padding);
        let height = cell_extent(viewport.height, table.num_rows, padding);
        let mut cells: Vec<Cell> = Vec::new();
        let mut i: usize = 0;
        while i < indices.len()
            invariant
                table.wf(),
                indices@ == spec_cell_indices(table),
                width == spec_extent_fraction(viewport.width, table.num_cols, padding),
                height == spec_extent_fraction(viewport.height, table.num_rows, padding),
                i <= indices@.len(),
                cells@.len() == i,
                forall|k: int|
                    0 <= k < i ==> cells@[k] == spec_cell(
                        table,
                        viewport,
                        padding,
                        spec_cell_indices(table)[k],
                        false,
                    ),
            decreases indices@.len() - i,
        {
            let (col, row) = indices[i];
            let x = cell_centre(viewport.width, table.num_cols, padding, col);
            let y = cell_centre(viewport.height, table.num_rows, padding, row);
            cells.push(Cell { col, row, x, y, width, height, on: false });
            i = i + 1;
        }
        assert(cells@ =~= spec_fresh_cells(table, viewport, padding));
        Grid { table, viewport, padding, cells }
    }

    /// The table that was laid out.
    pub fn table(&self) -> (r: Table)
        ensures
            r == self.spec_table(),
    {
        self.table
    }

    /// The viewport that the table was laid out in.
    pub fn viewport(&self) -> (r: Viewport)
        ensures
            r == self.spec_viewport(),
    {
        self.viewport
    }

    /// The padding that the table was laid out with.
    pub fn padding(&self) -> (r: u32)
        ensures
            r == self.spec_padding(),
    {
        self.padding
    }

    /// The number of cells.
    pub fn len(&self) -> (r: usize)
        ensures
            r == self@.len(),
    {
        self.cells.len()
    }

    /// The cell at position `i` in the order in which the cells were made.
    pub fn cell(&self, i: usize) -> (r: Cell)
        requires
            i < self@.len(),
        ensures
            r == self@[i as int],
    {
        self.cells[i]
    }

    /// Switches the cell at position `i` on where the draw is greater than one
    /// half, and off where it is not; nothing else changes.
    pub fn set_from_sample(&mut self, i: usize, sample: u64)
        requires
            i < old(self)@.len(),
        ensures
            final(self)@ == old(self)@.update(
                i as int,
                old(self)@[i as int].with_state(spec_exceeds_half(sample)),
            ),
            final(self).spec_table() == old(self).spec_table(),
            final(self).spec_viewport() == old(self).spec_viewport(),
            final(self).spec_padding() == old(self).spec_padding(),
            old(self).wf() ==> final(self).wf(),
    {
        let cell = self.cells[i];
        let on = exceeds_half(sample);
        self.cells.set(i, Cell { on, ..cell });
    }

    /// Gives every cell a new state from a draw of its own: the cell at
    /// position `i` is on afterwards exactly where `samples[i]` is greater than
    /// one half, whatever it was before.
    pub fn tick(&mut self, samples: &Vec<u64>)
        requires
            samples@.len() == old(self)@.len(),
        ensures
            final(self)@ == spec_updated_cells(old(self)@, samples@),
            final(self).spec_table() == old(self).spec_table(),
            final(self).spec_viewport() == old(self).spec_viewport(),
            final(self).spec_padding() == old(self).spec_padding(),
            old(self).wf() ==> final(self).wf(),
    {
        let n = self.cells.len();
        let mut i: usize = 0;
        while i < n
            invariant
                n == old(self)@.len(),
                samples@.len() == n,
                i <= n,
                self@.len() == n,
                self.spec_table() == old(self).spec_table(),
                self.spec_viewport() == old(self).spec_viewport(),
                self.spec_padding() == old(self).spec_padding(),
                old(self).wf() ==> self.wf(),
                forall|k: int|
                    0 <= k < i ==> self@[k] == old(self)@[k].with_state(
                        spec_exceeds_half(samples@[k]),
                    ),
                forall|k: int| i <= k < n ==> self@[k] == old(self)@[k],
            decreases n - i,
        {
            self.set_from_sample(i, samples[i]);
            i = i + 1;
        }
        assert(self@ =~= spec_updated_cells(old(self)@, samples@));
    }
}

} // verus!
