//! The editor state: current grid, snapshot history, and the record/undo
//! protocol.
//!
//! A grid instance may be shared between the `current` slot and any number
//! of history entries. Sharing is tracked with an identity tag: every fresh
//! grid instance gets a tag no earlier instance carries, and copying a
//! snapshot copies the tag, so two snapshots denote the same instance
//! exactly when their tags are equal. A snapshot stored in the history is
//! immutable: before any cell write, the current grid is detached
//! (copy-on-write) whenever its instance is still referenced by the
//! history.
//!
//! Undo is emacs-style: `undo` first appends the state being left behind to
//! the tail of the history, then steps the cursor backwards through the
//! entries recorded earlier. Those tail entries are revisited only after a
//! `record` resets the cursor, which is how redo is expressed.

use vstd::prelude::*;

use crate::grid::{columns_view, set_cell, Grid};
use crate::pixel::{Pixel, PixelColor, CHANNEL_FULL};

verus! {

/// Why a load was rejected.
#[derive(Clone, Copy, Debug, PartialEq, Eq, Structural)]
pub enum LoadError {
    /// The decoded data does not describe a grid of the editor's
    /// dimensions.
    DecodeFailure,
}

/// Default canvas height in cells.
pub const DEFAULT_ROWS: usize = 16;

/// Default canvas width in cells.
pub const DEFAULT_COLUMNS: usize = 16;

/// Default edge length of one cell, in display units.
pub const DEFAULT_PIXEL_SIZE: usize = 40;

/// A shared handle to one grid instance. The identity tag stands for the
/// instance: copying a snapshot copies the tag, so two snapshots reference
/// the same instance exactly when their tags are equal.
pub struct Snapshot {
    pub id: u64,
    pub grid: Grid,
}

/// The mathematical view of a snapshot: its identity and its cells.
#[verifier::ext_equal]
pub struct SnapModel {
    pub id: int,
    pub cells: Seq<Seq<Pixel>>,
}

impl Snapshot {
    pub open spec fn model(&self) -> SnapModel {
        SnapModel { id: self.id as int, cells: self.grid.cells() }
    }

    /// Another handle to the same instance: same identity, same cells.
    pub fn duplicate(&self) -> (s: Snapshot)
        requires
            self.grid.wf(),
        ensures
            s.model() == self.model(),
            s.grid.wf(),
            s.grid.rows == self.grid.rows,
            s.grid.columns == self.grid.columns,
    {
        Snapshot { id: self.id, grid: self.grid.duplicate() }
    }
}

/// The recorded snapshots and the undo cursor. `cursor == None` means "not
/// mid-undo-chain"; `cursor == Some(i)` means the last undo landed by
/// consuming entry `i`.
pub struct History {
    pub entries: Vec<Snapshot>,
    pub cursor: Option<usize>,
}

/// The mathematical view of a history.
#[verifier::ext_equal]
pub struct HistoryModel {
    pub entries: Seq<SnapModel>,
    pub cursor: Option<int>,
}

impl History {
    pub open spec fn model(&self) -> HistoryModel {
        HistoryModel {
            entries: self.entries@.map_values(|s: Snapshot| s.model()),
            cursor: match self.cursor {
                None => None,
                Some(i) => Some(i as int),
            },
        }
    }
}

/// The mathematical view of the whole editor state.
#[verifier::ext_equal]
pub struct EditorModel {
    pub rows: int,
    pub columns: int,
    pub pixel_width: int,
    pub pixel_height: int,
    pub current: SnapModel,
    pub history: HistoryModel,
    pub brush_color: PixelColor,
    pub next_id: int,
}

/// Does any entry of `entries` reference the instance tagged `id`?
pub open spec fn hist_shares_id(entries: Seq<SnapModel>, id: int) -> bool {
    exists|i: int| 0 <= i < entries.len() && entries[i].id == id
}

/// A `columns x rows` grid of cells, `rows` cells per column.
pub open spec fn grid_model_wf(cells: Seq<Seq<Pixel>>, columns: int, rows: int) -> bool {
    &&& cells.len() == columns
    &&& forall|c: int| 0 <= c < columns ==> (#[trigger] cells[c]).len() == rows
}

/// Every cell is the default, fully transparent pixel.
pub open spec fn default_cells(columns: int, rows: int) -> Seq<Seq<Pixel>> {
    Seq::new(columns as nat, |c: int| Seq::new(rows as nat, |r: int| Pixel::spec_default()))
}

impl EditorModel {
    /// Well-formedness of the editor state.
    ///
    /// Besides dimension bookkeeping, this captures the two aliasing
    /// invariants of the sharing scheme: identity tags are allocated below
    /// `next_id`, and snapshots are immutable, so any two handles with the
    /// same tag hold the same cells.
    pub open spec fn wf(self) -> bool {
        &&& self.rows > 0
        &&& self.columns > 0
        &&& self.pixel_width > 0
        &&& self.pixel_height > 0
        &&& self.columns * self.pixel_width + 1 <= 0x7fff_ffff
        &&& self.rows * self.pixel_height + 1 <= 0x7fff_ffff
        &&& grid_model_wf(self.current.cells, self.columns, self.rows)
        &&& forall|i: int|
            0 <= i < self.history.entries.len() ==> grid_model_wf(
                (#[trigger] self.history.entries[i]).cells,
                self.columns,
                self.rows,
            )
        &&& self.history.cursor matches Some(i) ==> 0 <= i < self.history.entries.len()
        &&& 0 <= self.current.id < self.next_id
        &&& forall|i: int|
            0 <= i < self.history.entries.len() ==> 0 <= (
            #[trigger] self.history.entries[i]).id < self.next_id
        &&& forall|i: int, j: int|
            0 <= i < self.history.entries.len() && 0 <= j < self.history.entries.len()
                && (#[trigger] self.history.entries[i]).id == (
            #[trigger] self.history.entries[j]).id ==> self.history.entries[i].cells
                == self.history.entries[j].cells
        &&& forall|i: int|
            0 <= i < self.history.entries.len() && (#[trigger] self.history.entries[i]).id
                == self.current.id ==> self.history.entries[i].cells == self.current.cells
    }
}

/// `record` on the history alone: reset the cursor; append the current
/// snapshot unless the last entry already references the same instance.
pub open spec fn spec_record_history(h: HistoryModel, current: SnapModel) -> HistoryModel {
    HistoryModel {
        entries: if h.entries.len() == 0 || h.entries.last().id != current.id {
            h.entries.push(current)
        } else {
            h.entries
        },
        cursor: None,
    }
}

/// `record`: preserve the pre-stroke state, at most once per instance.
pub open spec fn spec_record(m: EditorModel) -> EditorModel {
    EditorModel { history: spec_record_history(m.history, m.current), ..m }
}

/// `undo`: step back to the entry before the cursor (or before the end of
/// the history), first appending the state being left behind to the tail.
pub open spec fn spec_undo(m: EditorModel) -> EditorModel {
    let index: int = match m.history.cursor {
        None => m.history.entries.len() as int,
        Some(i) => i,
    };
    if index <= 0 {
        m
    } else {
        EditorModel {
            current: m.history.entries[index - 1],
            history: HistoryModel {
                entries: m.history.entries.push(m.current),
                cursor: Some(index - 1),
            },
            ..m
        }
    }
}

/// `clear_history`: forget every snapshot; the current grid stays.
pub open spec fn spec_clear_history(m: EditorModel) -> EditorModel {
    EditorModel { history: HistoryModel { entries: Seq::empty(), cursor: None }, ..m }
}

/// Grid-level copy-on-write: if the current instance is still referenced by
/// the history, re-tag the current grid as a fresh instance (the clone that
/// protects the snapshots); otherwise it is exclusively owned already.
pub open spec fn spec_detach(m: EditorModel) -> EditorModel {
    if hist_shares_id(m.history.entries, m.current.id) {
        EditorModel {
            current: SnapModel { id: m.next_id, cells: m.current.cells },
            next_id: m.next_id + 1,
            ..m
        }
    } else {
        m
    }
}

/// One mutation write: detach the current grid if it is shared, then write
/// the cell.
pub open spec fn spec_write_cell(m: EditorModel, column: int, row: int, p: Pixel) -> EditorModel {
    let d = spec_detach(m);
    EditorModel {
        current: SnapModel { id: d.current.id, cells: set_cell(d.current.cells, column, row, p) },
        ..d
    }
}

/// A mutation request as the interaction layer issues it: optionally start
/// a new history entry, then write the cell copy-on-write.
pub open spec fn spec_put_pixel(
    m: EditorModel,
    p: Pixel,
    column: int,
    row: int,
    record: bool,
) -> EditorModel {
    spec_write_cell(if record { spec_record(m) } else { m }, column, row, p)
}

/// `clear`: record the pre-clear state as one undoable step, then reset
/// the (detached) current grid to all-default cells.
pub open spec fn spec_clear(m: EditorModel) -> EditorModel {
    let d = spec_detach(spec_record(m));
    EditorModel {
        current: SnapModel { id: d.current.id, cells: default_cells(m.columns, m.rows) },
        ..d
    }
}

/// A successful load: the decoded grid replaces the current one as a
/// fresh instance and the history is emptied.
pub open spec fn spec_load(m: EditorModel, cells: Seq<Seq<Pixel>>) -> EditorModel {
    EditorModel {
        current: SnapModel { id: m.next_id, cells },
        next_id: m.next_id + 1,
        history: HistoryModel { entries: Seq::empty(), cursor: None },
        ..m
    }
}

/// The coordinate lookup, in the grid's local coordinate space: the cell
/// under position `(x, y)`, or `None` when the position lies outside the
/// grid's rectangle (which is one unit wider and taller than the cells it
/// holds, for the border). The index is clamped as a defensive measure
/// against positions on the very last boundary line.
pub open spec fn spec_pos_on_grid(m: EditorModel, x: int, y: int) -> Option<(int, int)> {
    if 0 <= x < m.columns * m.pixel_width + 1 && 0 <= y < m.rows * m.pixel_height + 1 {
        let column = if x / m.pixel_width < m.columns - 1 {
            x / m.pixel_width
        } else {
            m.columns - 1
        };
        let row = if y / m.pixel_height < m.rows - 1 {
            y / m.pixel_height
        } else {
            m.rows - 1
        };
        Some((column, row))
    } else {
        None
    }
}

/// The state a fresh editor starts in: an all-default grid tagged as
/// instance `0`, an empty history, and `1` as the next free tag.
pub open spec fn spec_initial(
    rows: int,
    columns: int,
    pixel_width: int,
    pixel_height: int,
    brush_color: PixelColor,
) -> EditorModel {
    EditorModel {
        rows,
        columns,
        pixel_width,
        pixel_height,
        current: SnapModel { id: 0, cells: default_cells(columns, rows) },
        history: HistoryModel { entries: Seq::empty(), cursor: None },
        brush_color,
        next_id: 1,
    }
}

/// The default brush color: full green, blue and alpha channels (cyan).
pub open spec fn default_brush() -> PixelColor {
    PixelColor { r: 0, g: CHANNEL_FULL, b: CHANNEL_FULL, a: CHANNEL_FULL }
}

/// The grid currently shown, its snapshot history, the brush color, and
/// the fixed cell geometry used by the coordinate lookup.
pub struct EditorState {
    pub rows: usize,
    pub columns: usize,
    pub pixel_width: usize,
    pub pixel_height: usize,
    pub current: Snapshot,
    pub history: History,
    pub brush_color: PixelColor,
    pub next_id: u64,
}

impl EditorState {
    pub open spec fn model(&self) -> EditorModel {
        EditorModel {
            rows: self.rows as int,
            columns: self.columns as int,
            pixel_width: self.pixel_width as int,
            pixel_height: self.pixel_height as int,
            current: self.current.model(),
            history: self.history.model(),
            brush_color: self.brush_color,
            next_id: self.next_id as int,
        }
    }

    /// Well-formedness: the model invariants hold and every grid held by
    /// the state carries the editor's dimensions.
    pub open spec fn wf(&self) -> bool {
        &&& self.model().wf()
        &&& self.current.grid.wf()
        &&& self.current.grid.rows == self.rows
        &&& self.current.grid.columns == self.columns
        &&& forall|i: int|
            0 <= i < self.history.entries@.len() ==> {
                let g = (#[trigger] self.history.entries@[i]).grid;
                g.wf() && g.rows == self.rows && g.columns == self.columns
            }
    }

    pub fn new(
        rows: usize,
        columns: usize,
        pixel_width: usize,
        pixel_height: usize,
        brush_color: PixelColor,
    ) -> (e: EditorState)
        requires
            rows > 0,
            columns > 0,
            pixel_width > 0,
            pixel_height > 0,
            columns * pixel_width + 1 <= 0x7fff_ffff,
            rows * pixel_height + 1 <= 0x7fff_ffff,
        ensures
            e.wf(),
            e.model() == spec_initial(
                rows as int,
                columns as int,
                pixel_width as int,
                pixel_height as int,
                brush_color,
            ),
    {
        let grid = Grid::new(rows, columns);
        proof {
            assert forall|c: int, r: int| 0 <= c < columns && 0 <= r < rows implies grid.cells()[c][r]
                == Pixel::spec_default() by {
                assert(grid.cell(c, r) == Pixel::spec_default());
            }
            assert(grid.cells() =~~= default_cells(columns as int, rows as int));
        }
        let e = EditorState {
            rows,
            columns,
            pixel_width,
            pixel_height,
            current: Snapshot { id: 0, grid },
            history: History { entries: Vec::new(), cursor: None },
            brush_color,
            next_id: 1,
        };
        proof {
            assert(e.model() =~~= spec_initial(
                rows as int,
                columns as int,
                pixel_width as int,
                pixel_height as int,
                brush_color,
            ));
        }
        e
    }

    /// Saves the current state in the history, at most once per instance:
    /// nothing is appended when the last entry already references the
    /// current grid.
    pub fn record(&mut self)
        requires
            old(self).wf(),
        ensures
            final(self).wf(),
            final(self).model() == spec_record(old(self).model()),
    {
        self.history.cursor = None;
        let n = self.history.entries.len();
        let same = if n == 0 {
            false
        } else {
            self.history.entries[n - 1].id == self.current.id
        };
        if !same {
            let snap = self.current.duplicate();
            self.history.entries.push(snap);
        }
        proof {
            assert(self.model() =~~= spec_record(old(self).model()));
        }
    }

    /// Undoes to the snapshot before the cursor (or before the end of the
    /// history), first pushing the state being left behind onto the tail,
    /// so that it is never lost. Undoing with nothing recorded is a no-op.
    ///
    /// Redo is emacs-style: `record` followed by `undo` steps back into
    /// the tail of previously undone states.
    pub fn undo(&mut self)
        requires
            old(self).wf(),
        ensures
            final(self).wf(),
            final(self).model() == spec_undo(old(self).model()),
    {
        let index = match self.history.cursor {
            None => self.history.entries.len(),
            Some(i) => i,
        };
        if index > 0 {
            let pre = self.current.duplicate();
            self.history.entries.push(pre);
            let prev = self.history.entries[index - 1].duplicate();
            self.current = prev;
            self.history.cursor = Some(index - 1);
        }
        proof {
            assert(self.model() =~~= spec_undo(old(self).model()));
        }
    }

    /// Is the current grid instance still referenced by a history entry?
    fn shares_with_history(&self) -> (b: bool)
        ensures
            b == hist_shares_id(self.model().history.entries, self.model().current.id),
    {
        let n = self.history.entries.len();
        let mut i: usize = 0;
        while i < n
            invariant
                i <= n,
                n == self.history.entries@.len(),
                forall|j: int|
                    0 <= j < i ==> (#[trigger] self.model().history.entries[j]).id
                        != self.model().current.id,
            decreases n - i,
        {
            if self.history.entries[i].id == self.current.id {
                proof {
                    assert(self.model().history.entries[i as int].id == self.model().current.id);
                }
                return true;
            }
            i = i + 1;
        }
        false
    }

    /// Grid-level copy-on-write: gives the caller exclusive ownership of
    /// the current grid. If the instance is shared with the history, the
    /// current slot is re-tagged as a fresh instance (the protecting
    /// clone); otherwise nothing changes.
    fn detach_current(&mut self)
        requires
            old(self).wf(),
            old(self).next_id < u64::MAX,
        ensures
            final(self).wf(),
            final(self).model() == spec_detach(old(self).model()),
            !hist_shares_id(final(self).model().history.entries, final(self).model().current.id),
    {
        if self.shares_with_history() {
            self.current.id = self.next_id;
            self.next_id = self.next_id + 1;
        }
        proof {
            assert(self.model() =~~= spec_detach(old(self).model()));
        }
    }

    /// One mutation request from the interaction layer: optionally record
    /// first (exactly once per gesture, on its initiating event), then
    /// write the cell, copy-on-write, so that no history snapshot changes.
    pub fn put_pixel(&mut self, p: Pixel, column: usize, row: usize, record: bool)
        requires
            old(self).wf(),
            column < old(self).columns,
            row < old(self).rows,
            old(self).next_id < u64::MAX,
        ensures
            final(self).wf(),
            final(self).model() == spec_put_pixel(
                old(self).model(),
                p,
                column as int,
                row as int,
                record,
            ),
    {
        if record {
            self.record();
        }
        self.detach_current();
        self.current.grid.set(column, row, p);
        proof {
            assert(self.model() =~~= spec_put_pixel(
                old(self).model(),
                p,
                column as int,
                row as int,
                record,
            ));
        }
    }

    /// Resets every cell to the default pixel, as one undoable step: the
    /// pre-clear state is recorded first.
    pub fn clear(&mut self)
        requires
            old(self).wf(),
            old(self).next_id < u64::MAX,
        ensures
            final(self).wf(),
            final(self).model() == spec_clear(old(self).model()),
    {
        self.record();
        self.detach_current();
        self.current.grid = Grid::new(self.rows, self.columns);
        proof {
            let cleared = self.model().current.cells;
            assert forall|c: int, r: int|
                0 <= c < self.columns && 0 <= r < self.rows implies cleared[c][r]
                == Pixel::spec_default() by {
                assert(self.current.grid.cell(c, r) == Pixel::spec_default());
            }
            assert(cleared =~~= default_cells(self.columns as int, self.rows as int));
            assert(self.model() =~~= spec_clear(old(self).model()));
        }
    }

    /// Forgets every recorded snapshot. The current grid is untouched.
    pub fn clear_history(&mut self)
        requires
            old(self).wf(),
        ensures
            final(self).wf(),
            final(self).model() == spec_clear_history(old(self).model()),
    {
        self.history.entries = Vec::new();
        self.history.cursor = None;
        proof {
            assert(self.model() =~~= spec_clear_history(old(self).model()));
        }
    }
}

impl EditorState {
    /// Replaces the brush color used by drawing gestures.
    pub fn set_brush_color(&mut self, color: PixelColor)
        requires
            old(self).wf(),
        ensures
            final(self).wf(),
            final(self).model() == (EditorModel { brush_color: color, ..old(self).model() }),
    {
        self.brush_color = color;
        proof {
            assert(self.model() =~~= (EditorModel {
                brush_color: color,
                ..old(self).model()
            }));
        }
    }

    /// Replaces the red channel of the brush color (a color slider moved).
    pub fn set_brush_red(&mut self, channel: u32)
        requires
            old(self).wf(),
        ensures
            final(self).wf(),
            final(self).model() == (EditorModel {
                brush_color: PixelColor { r: channel, ..old(self).brush_color },
                ..old(self).model()
            }),
    {
        let color = PixelColor { r: channel, ..self.brush_color };
        self.set_brush_color(color);
    }

    /// Replaces the green channel of the brush color.
    pub fn set_brush_green(&mut self, channel: u32)
        requires
            old(self).wf(),
        ensures
            final(self).wf(),
            final(self).model() == (EditorModel {
                brush_color: PixelColor { g: channel, ..old(self).brush_color },
                ..old(self).model()
            }),
    {
        let color = PixelColor { g: channel, ..self.brush_color };
        self.set_brush_color(color);
    }

    /// Replaces the blue channel of the brush color.
    pub fn set_brush_blue(&mut self, channel: u32)
        requires
            old(self).wf(),
        ensures
            final(self).wf(),
            final(self).model() == (EditorModel {
                brush_color: PixelColor { b: channel, ..old(self).brush_color },
                ..old(self).model()
            }),
    {
        let color = PixelColor { b: channel, ..self.brush_color };
        self.set_brush_color(color);
    }

    /// The size of the grid's rectangle in display units, one unit wider
    /// and taller than the cells it holds, for the border.
    pub fn grid_size(&self) -> (s: (usize, usize))
        requires
            self.wf(),
        ensures
            s.0 == self.model().columns * self.model().pixel_width + 1,
            s.1 == self.model().rows * self.model().pixel_height + 1,
    {
        (self.columns * self.pixel_width + 1, self.rows * self.pixel_height + 1)
    }

    /// Returns the cell indices under a pointer position in the grid's
    /// local coordinate space, or `None` outside the grid's rectangle.
    pub fn pos_on_grid(&self, x: i64, y: i64) -> (r: Option<(usize, usize)>)
        requires
            self.wf(),
        ensures
            r matches Some(p) ==> {
                &&& spec_pos_on_grid(self.model(), x as int, y as int) == Some(
                    (p.0 as int, p.1 as int),
                )
                &&& p.0 < self.columns
                &&& p.1 < self.rows
            },
            r is None ==> spec_pos_on_grid(self.model(), x as int, y as int) is None,
    {
        proof {
            assert(self.columns <= self.columns * self.pixel_width) by (nonlinear_arith)
                requires
                    self.pixel_width >= 1,
                    self.columns >= 0,
            ;
            assert(self.rows <= self.rows * self.pixel_height) by (nonlinear_arith)
                requires
                    self.pixel_height >= 1,
                    self.rows >= 0,
            ;
            assert(self.pixel_width <= self.columns * self.pixel_width) by (nonlinear_arith)
                requires
                    self.columns >= 1,
                    self.pixel_width >= 0,
            ;
            assert(self.pixel_height <= self.rows * self.pixel_height) by (nonlinear_arith)
                requires
                    self.rows >= 1,
                    self.pixel_height >= 0,
            ;
        }
        let w: i64 = (self.columns as i64) * (self.pixel_width as i64);
        let h: i64 = (self.rows as i64) * (self.pixel_height as i64);
        if 0 <= x && x <= w && 0 <= y && y <= h {
            let cq: i64 = x / (self.pixel_width as i64);
            let rq: i64 = y / (self.pixel_height as i64);
            let column: usize = if cq >= (self.columns as i64) - 1 {
                self.columns - 1
            } else {
                cq as usize
            };
            let row: usize = if rq >= (self.rows as i64) - 1 {
                self.rows - 1
            } else {
                rq as usize
            };
            Some((column, row))
        } else {
            None
        }
    }

    /// Read-only view of one cell of the current grid, for rendering.
    pub fn cell(&self, column: usize, row: usize) -> (p: Pixel)
        requires
            self.wf(),
            column < self.columns,
            row < self.rows,
        ensures
            p == self.model().current.cells[column as int][row as int],
    {
        self.current.grid.get(column, row)
    }

    /// The whole current grid as plain columns of pixels: the read-only
    /// export consumed by rendering and by saving. History internals are
    /// not exposed this way.
    pub fn export_cells(&self) -> (cells: Vec<Vec<Pixel>>)
        requires
            self.wf(),
        ensures
            columns_view(cells@) == self.model().current.cells,
    {
        let g = self.current.grid.duplicate();
        g.pixels
    }

    /// Replaces the canvas with a decoded grid, as plain cells, and
    /// empties the history. Data of the wrong shape is rejected and the
    /// state is left exactly as it was.
    pub fn load_cells(&mut self, cells: &Vec<Vec<Pixel>>) -> (r: Result<(), LoadError>)
        requires
            old(self).wf(),
            old(self).next_id < u64::MAX,
        ensures
            final(self).wf(),
            r is Ok <==> grid_model_wf(
                columns_view(cells@),
                old(self).columns as int,
                old(self).rows as int,
            ),
            r is Ok ==> final(self).model() == spec_load(old(self).model(), columns_view(cells@)),
            r is Err ==> final(self).model() == old(self).model() && r == Result::<
                (),
                LoadError,
            >::Err(LoadError::DecodeFailure),
    {
        if cells.len() != self.columns {
            return Err(LoadError::DecodeFailure);
        }
        let n = cells.len();
        let mut c: usize = 0;
        while c < n
            invariant
                c <= n,
                n == cells@.len(),
                self == old(self),
                old(self).wf(),
                forall|k: int| 0 <= k < c ==> (#[trigger] cells@[k])@.len() == old(self).rows,
            decreases n - c,
        {
            if cells[c].len() != self.rows {
                proof {
                    assert(columns_view(cells@)[c as int].len() != old(self).rows);
                }
                return Err(LoadError::DecodeFailure);
            }
            c = c + 1;
        }
        proof {
            assert forall|k: int| 0 <= k < columns_view(cells@).len() implies (#[trigger] columns_view(
                cells@,
            )[k]).len() == old(self).rows by {
                assert(cells@[k]@.len() == old(self).rows);
            }
        }
        let g = Grid::from_cells(self.rows, self.columns, cells);
        self.current = Snapshot { id: self.next_id, grid: g };
        self.next_id = self.next_id + 1;
        self.history.entries = Vec::new();
        self.history.cursor = None;
        proof {
            assert(self.model() =~~= spec_load(old(self).model(), columns_view(cells@)));
        }
        Ok(())
    }
}

impl Default for EditorState {
    /// A 16 x 16 canvas of 40-unit cells with a cyan brush.
    fn default() -> (e: EditorState)
        ensures
            e.wf(),
            e.model() == spec_initial(
                DEFAULT_ROWS as int,
                DEFAULT_COLUMNS as int,
                DEFAULT_PIXEL_SIZE as int,
                DEFAULT_PIXEL_SIZE as int,
                default_brush(),
            ),
    {
        EditorState::new(
            DEFAULT_ROWS,
            DEFAULT_COLUMNS,
            DEFAULT_PIXEL_SIZE,
            DEFAULT_PIXEL_SIZE,
            PixelColor { r: 0, g: CHANNEL_FULL, b: CHANNEL_FULL, a: CHANNEL_FULL },
        )
    }
}

/// Recording is idempotent: after a `record`, the last history entry
/// references the current instance, so a second `record` with no
/// intervening mutation appends nothing and changes nothing.
pub proof fn lemma_record_idempotent(m: EditorModel)
    ensures
        spec_record(spec_record(m)) == spec_record(m),
{
    let m1 = spec_record(m);
    if m.history.entries.len() == 0 || m.history.entries.last().id != m.current.id {
        assert(m1.history.entries.last() == m.current);
    }
    assert(spec_record(m1) =~~= m1);
}

/// `undo` on an editor with an empty history is a no-op: the current grid,
/// the cursor and everything else are unchanged.
pub proof fn lemma_undo_empty_history(m: EditorModel)
    requires
        m.wf(),
        m.history.entries.len() == 0,
    ensures
        spec_undo(m) == m,
{
}

/// History snapshots are immune to mutation requests: a `put_pixel` never
/// changes a recorded entry, whatever it does to the current grid — it can
/// only append the pre-stroke state behind them.
pub proof fn lemma_snapshots_immutable(m: EditorModel, p: Pixel, column: int, row: int, record: bool)
    requires
        m.wf(),
    ensures
        forall|i: int|
            0 <= i < m.history.entries.len() ==> #[trigger] spec_put_pixel(
                m,
                p,
                column,
                row,
                record,
            ).history.entries[i] == m.history.entries[i],
{
}

} // verus!
