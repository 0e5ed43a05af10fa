//! A fixed-size 2-D grid of pixels, one canvas state.
//!
//! The grid is indexed `[column][row]`; its dimensions are chosen at
//! construction and never change afterwards. A snapshot of a grid is an
//! independent value, so writing a cell of one grid can never be observed
//! through another.

use vstd::prelude::*;
use vstd::pervasive::VecAdditionalExecFns;

use crate::pixel::Pixel;

verus! {

/// The cells held by a sequence of columns, column by column.
pub open spec fn columns_view(pixels: Seq<Vec<Pixel>>) -> Seq<Seq<Pixel>> {
    pixels.map_values(|column: Vec<Pixel>| column@)
}

/// The cells of `cells` after writing `p` at `(column, row)`.
pub open spec fn set_cell(cells: Seq<Seq<Pixel>>, column: int, row: int, p: Pixel) -> Seq<
    Seq<Pixel>,
> {
    cells.update(column, cells[column].update(row, p))
}

/// A fixed-size 2-D collection of pixels, indexed `[column][row]`.
pub struct Grid {
    pub rows: usize,
    pub columns: usize,
    pub pixels: Vec<Vec<Pixel>>,
}

impl Grid {
    /// The grid's cells as a sequence of columns.
    pub open spec fn cells(&self) -> Seq<Seq<Pixel>> {
        columns_view(self.pixels@)
    }

    /// The pixel stored at `(column, row)`.
    pub open spec fn cell(&self, column: int, row: int) -> Pixel {
        self.cells()[column][row]
    }

    /// Well-formedness: the dimensions are positive and every column holds
    /// exactly `rows` cells.
    pub open spec fn wf(&self) -> bool {
        &&& self.rows > 0
        &&& self.columns > 0
        &&& self.cells().len() == self.columns
        &&& forall|c: int|
            0 <= c < self.columns ==> (#[trigger] self.cells()[c]).len() == self.rows
    }

    /// A fresh grid: every cell is the default, fully transparent pixel.
    pub fn new(rows: usize, columns: usize) -> (g: Grid)
        requires
            rows > 0,
            columns > 0,
        ensures
            g.wf(),
            g.rows == rows,
            g.columns == columns,
            forall|c: int, r: int|
                0 <= c < columns && 0 <= r < rows ==> #[trigger] g.cell(c, r)
                    == Pixel::spec_default(),
    {
        let blank = Pixel::default();
        let mut pixels: Vec<Vec<Pixel>> = Vec::new();
        while pixels.len() < columns
            invariant
                pixels@.len() <= columns,
                forall|c: int|
                    0 <= c < pixels@.len() ==> (#[trigger] pixels@[c])@.len() == rows,
                forall|c: int, r: int|
                    0 <= c < pixels@.len() && 0 <= r < rows ==> #[trigger] pixels@[c]@[r]
                        == Pixel::spec_default(),
                blank == Pixel::spec_default(),
            decreases columns - pixels@.len(),
        {
            let mut column: Vec<Pixel> = Vec::new();
            while column.len() < rows
                invariant
                    column@.len() <= rows,
                    forall|r: int|
                        0 <= r < column@.len() ==> #[trigger] column@[r] == Pixel::spec_default(),
                    blank == Pixel::spec_default(),
                decreases rows - column@.len(),
            {
                column.push(blank);
            }
            pixels.push(column);
        }
        let g = Grid { rows, columns, pixels };
        g
    }

    /// Bounds-checked read of one cell; the caller pre-validates the
    /// coordinates (normally through the coordinate lookup).
    pub fn get(&self, column: usize, row: usize) -> (p: Pixel)
        requires
            self.wf(),
            column < self.columns,
            row < self.rows,
        ensures
            p == self.cell(column as int, row as int),
    {
        proof {
            assert(self.cells()[column as int] == self.pixels@[column as int]@);
        }
        self.pixels[column][row]
    }

    /// Writes one cell in place. Only that cell changes; the dimensions and
    /// every other cell stay as they were.
    pub fn set(&mut self, column: usize, row: usize, p: Pixel)
        requires
            old(self).wf(),
            column < old(self).columns,
            row < old(self).rows,
        ensures
            final(self).wf(),
            final(self).rows == old(self).rows,
            final(self).columns == old(self).columns,
            final(self).cells() == set_cell(old(self).cells(), column as int, row as int, p),
            final(self).cell(column as int, row as int) == p,
            forall|c: int, r: int|
                0 <= c < old(self).columns && 0 <= r < old(self).rows && !(c == column && r
                    == row) ==> #[trigger] final(self).cell(c, r) == old(self).cell(c, r),
    {
        proof {
            assert(self.cells()[column as int] == self.pixels@[column as int]@);
        }
        let n = self.pixels[column].len();
        let mut fresh: Vec<Pixel> = Vec::new();
        let mut r: usize = 0;
        while r < n
            invariant
                r <= n,
                n == self.pixels@[column as int]@.len(),
                column < self.pixels@.len(),
                row < n,
                fresh@.len() == r,
                forall|k: int|
                    0 <= k < r && k != row ==> #[trigger] fresh@[k] == self.pixels@[column
                        as int]@[k],
                forall|k: int| 0 <= k < r && k == row ==> #[trigger] fresh@[k] == p,
            decreases n - r,
        {
            if r == row {
                fresh.push(p);
            } else {
                fresh.push(self.pixels[column][r]);
            }
            r = r + 1;
        }
        let ghost before = self.cells();
        self.pixels.set(column, fresh);
        proof {
            assert(self.cells() =~~= set_cell(before, column as int, row as int, p));
        }
    }

    /// A grid built from externally supplied cells (a decoded file); the
    /// caller has already validated the shape.
    pub fn from_cells(rows: usize, columns: usize, cells: &Vec<Vec<Pixel>>) -> (g: Grid)
        requires
            rows > 0,
            columns > 0,
            cells@.len() == columns,
            forall|c: int| 0 <= c < columns ==> (#[trigger] cells@[c])@.len() == rows,
        ensures
            g.wf(),
            g.rows == rows,
            g.columns == columns,
            g.cells() == columns_view(cells@),
    {
        let mut pixels: Vec<Vec<Pixel>> = Vec::new();
        while pixels.len() < columns
            invariant
                pixels@.len() <= columns,
                cells@.len() == columns,
                forall|c: int| 0 <= c < columns ==> (#[trigger] cells@[c])@.len() == rows,
                forall|c: int| 0 <= c < pixels@.len() ==> #[trigger] pixels@[c]@ == cells@[c]@,
            decreases columns - pixels@.len(),
        {
            let c = pixels.len();
            let mut column: Vec<Pixel> = Vec::new();
            while column.len() < rows
                invariant
                    c < columns,
                    cells@.len() == columns,
                    cells@[c as int]@.len() == rows,
                    column@.len() <= rows,
                    forall|k: int|
                        0 <= k < column@.len() ==> #[trigger] column@[k] == cells@[c as int]@[k],
                decreases rows - column@.len(),
            {
                column.push(cells[c][column.len()]);
            }
            proof {
                assert(column@ =~= cells@[c as int]@);
            }
            pixels.push(column);
        }
        let g = Grid { rows, columns, pixels };
        proof {
            assert(g.cells() =~~= columns_view(cells@));
        }
        g
    }

    /// An independent copy with the same dimensions and the same cells.
    pub fn duplicate(&self) -> (g: Grid)
        requires
            self.wf(),
        ensures
            g.wf(),
            g.rows == self.rows,
            g.columns == self.columns,
            g.cells() == self.cells(),
    {
        let mut pixels: Vec<Vec<Pixel>> = Vec::new();
        while pixels.len() < self.columns
            invariant
                self.wf(),
                pixels@.len() <= self.columns,
                forall|c: int|
                    0 <= c < pixels@.len() ==> #[trigger] pixels@[c]@ == self.cells()[c],
            decreases self.columns - pixels@.len(),
        {
            let c = pixels.len();
            let mut column: Vec<Pixel> = Vec::new();
            while column.len() < self.rows
                invariant
                    self.wf(),
                    c < self.columns,
                    column@.len() <= self.rows,
                    forall|k: int|
                        0 <= k < column@.len() ==> #[trigger] column@[k] == self.cells()[c
                            as int][k],
                decreases self.rows - column@.len(),
            {
                proof {
                    assert(self.cells()[c as int] == self.pixels@[c as int]@);
                }
                column.push(self.pixels[c][column.len()]);
            }
            proof {
                assert(column@ =~= self.cells()[c as int]);
            }
            pixels.push(column);
        }
        let g = Grid { rows: self.rows, columns: self.columns, pixels };
        proof {
            assert(g.cells() =~~= self.cells());
        }
        g
    }
}

/// Writing one cell of a grid value touches nothing else: the written grid
/// agrees with the one it was derived from on every other cell. Together
/// with [`Grid::duplicate`], this is the copy-on-write isolation law: a
/// snapshot taken before the write keeps all of its cells.
pub proof fn lemma_write_isolation(cells: Seq<Seq<Pixel>>, column: int, row: int, p: Pixel)
    requires
        0 <= column < cells.len(),
        0 <= row < cells[column].len(),
    ensures
        set_cell(cells, column, row, p)[column][row] == p,
        forall|c: int, r: int|
            0 <= c < cells.len() && 0 <= r < cells[c].len() && !(c == column && r == row)
                ==> #[trigger] set_cell(cells, column, row, p)[c][r] == cells[c][r],
{
}

} // verus!
