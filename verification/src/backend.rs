//! The editor's cell grid, as the GPU back end keeps it between frames.
use vstd::prelude::*;

verus! {

/// A grid of `cols` by `rows` cells, stored row by row.
pub struct CellGrid<T> {
    cells: Vec<T>,
    cols: u16,
    rows: u16,
}

/// The place in row-by-row storage of the cell at column `x` of row `y`.
pub open spec fn spec_cell_index(cols: u16, x: u16, y: u16) -> int {
    y * cols + x
}

impl<T> CellGrid<T> {
    /// The cells, row by row.
    pub closed spec fn spec_cells(&self) -> Seq<T> {
        self.cells@
    }

    /// Columns of the grid.
    pub closed spec fn spec_cols(&self) -> u16 {
        self.cols
    }

    /// Rows of the grid.
    pub closed spec fn spec_rows(&self) -> u16 {
        self.rows
    }

    /// The grid holds one cell per column of each row.
    pub open spec fn wf(&self) -> bool {
        self.spec_cells().len() == self.spec_cols() * self.spec_rows()
    }

    /// A grid of `cols` by `rows` holding `cells`, row by row.
    pub fn new(cols: u16, rows: u16, cells: Vec<T>) -> (g: CellGrid<T>)
        requires
            cells@.len() == cols * rows,
        ensures
            g.wf(),
            g.spec_cols() == cols,
            g.spec_rows() == rows,
            g.spec_cells() == cells@,
    {
        CellGrid { cells, cols, rows }
    }

    /// The size of the grid as (columns, rows).
    pub fn size(&self) -> (r: (u16, u16))
        ensures
            r == (self.spec_cols(), self.spec_rows()),
    {
        (self.cols, self.rows)
    }

    /// The cells, row by row.
    pub fn cells(&self) -> (r: &Vec<T>)
        ensures
            r@ == self.spec_cells(),
    {
        &self.cells
    }

    /// Store `cell` at column `x` of row `y`. A place past the end of the
    /// grid is ignored; a column past the row's end lands in the next row,
    /// as the row-by-row storage has it. Returns whether the cell was stored.
    pub fn draw_cell(&mut self, x: u16, y: u16, cell: T) -> (stored: bool)
        ensures
            old(self).wf() ==> final(self).wf(),
            final(self).spec_cols() == old(self).spec_cols(),
            final(self).spec_rows() == old(self).spec_rows(),
            stored == (spec_cell_index(old(self).spec_cols(), x, y) < old(self).spec_cells().len()),
            stored ==> final(self).spec_cells() == old(self).spec_cells().update(
                spec_cell_index(old(self).spec_cols(), x, y),
                cell,
            ),
            !stored ==> final(self).spec_cells() == old(self).spec_cells(),
    {
        assert((y as int) * (self.cols as int) + (x as int) <= 65535 * 65535 + 65535) by (nonlinear_arith)
            requires
                y <= 65535,
                self.cols <= 65535,
                x <= 65535,
        ;
        let idx = (y as usize) * (self.cols as usize) + (x as usize);
        if idx < self.cells.len() {
            self.cells.set(idx, cell);
            true
        } else {
            false
        }
    }

    /// Replace the cell at position `index` of the row-by-row storage.
    pub fn set_cell(&mut self, index: usize, cell: T)
        requires
            index < old(self).spec_cells().len(),
        ensures
            old(self).wf() ==> final(self).wf(),
            final(self).spec_cols() == old(self).spec_cols(),
            final(self).spec_rows() == old(self).spec_rows(),
            final(self).spec_cells() == old(self).spec_cells().update(index as int, cell),
    {
        self.cells.set(index, cell);
    }
}

/// Every place inside a grid (column below `cols`, row below `rows`) has
/// its own slot of the storage, and the slot lies within it: drawing a cell
/// there stores it, and touches no other place of the grid.
pub proof fn lemma_cell_index_in_grid(cols: u16, rows: u16, x1: u16, y1: u16, x2: u16, y2: u16)
    requires
        x1 < cols,
        y1 < rows,
        x2 < cols,
        y2 < rows,
    ensures
        0 <= spec_cell_index(cols, x1, y1) < cols * rows,
        (x1 != x2 || y1 != y2) ==> spec_cell_index(cols, x1, y1) != spec_cell_index(cols, x2, y2),
{
    assert(0 <= y1 * cols + x1 < cols * rows) by (nonlinear_arith)
        requires
            x1 < cols,
            y1 < rows,
    ;
    if y1 < y2 {
        assert(y1 * cols + x1 < y2 * cols + x2) by (nonlinear_arith)
            requires
                y1 < y2,
                x1 < cols,
        ;
    } else if y2 < y1 {
        assert(y2 * cols + x2 < y1 * cols + x1) by (nonlinear_arith)
            requires
                y2 < y1,
                x2 < cols,
        ;
    }
}

/// Cells are stored row by row: the next column is the next slot, and the
/// next row is `cols` slots on; the top-left cell is the first slot.
pub proof fn lemma_cells_are_stored_row_by_row(cols: u16, x: u16, y: u16)
    ensures
        spec_cell_index(cols, 0, 0) == 0,
        x < 0xffff ==> spec_cell_index(cols, (x + 1) as u16, y) == spec_cell_index(cols, x, y) + 1,
        y < 0xffff ==> spec_cell_index(cols, x, (y + 1) as u16) == spec_cell_index(cols, x, y) + cols,
{
    if y < 0xffff {
        assert(((y + 1) as u16) * cols == y * cols + cols) by (nonlinear_arith)
            requires
                y < 0xffff,
        ;
    }
}

} // verus!
