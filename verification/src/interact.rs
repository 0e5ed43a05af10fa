//! The pointer-gesture state machine.
//!
//! One continuous pointer-down ... pointer-up interaction is a gesture.
//! The machine turns raw pointer events into mutation requests against the
//! editor: the initiating pointer-down asks for a `record` (so one undo
//! step spans the whole stroke), the moves inside the gesture write without
//! recording, and events outside the grid's rectangle are ignored.

use vstd::prelude::*;

use crate::editor::{
    hist_shares_id, spec_pos_on_grid, spec_put_pixel, spec_record, EditorModel, EditorState,
};
use crate::grid::set_cell;
use crate::pixel::{Pixel, PixelColor};

verus! {

/// The per-gesture interaction state; long-lived, reset to `Idle` on
/// pointer release.
#[derive(Clone, Copy, Debug, PartialEq, Eq, Structural)]
pub enum CanvasState {
    Idle,
    Drawing,
    Erasing,
}

impl Default for CanvasState {
    /// A gesture machine starts out idle.
    fn default() -> (s: CanvasState)
        ensures
            s == CanvasState::Idle,
    {
        CanvasState::Idle
    }
}

/// The pointer button an event speaks of. Buttons other than the primary
/// and secondary one never start or end a gesture.
#[derive(Clone, Copy, Debug, PartialEq, Eq, Structural)]
pub enum MouseButton {
    Left,
    Right,
    Other,
}

/// A pointer position in the grid's local coordinate space, floored to
/// whole display units by the host layer.
#[derive(Clone, Copy, Debug, PartialEq, Eq, Structural)]
pub struct Position {
    pub x: i64,
    pub y: i64,
}

/// Cell coordinates on the grid.
#[derive(Clone, Copy, Debug, PartialEq, Eq, Structural)]
pub struct Pos {
    pub row: usize,
    pub column: usize,
}

/// One raw pointer event, as the hosting event loop delivers it.
#[derive(Clone, Copy, Debug, PartialEq, Eq, Structural)]
#[allow(inconsistent_fields)]
pub enum PointerEvent {
    /// A button went down; the pointer may be outside the window, in which
    /// case there is no position.
    Pressed { button: MouseButton, position: Option<Position> },
    /// The pointer moved.
    Moved { position: Position },
    /// A button came up.
    Released { button: MouseButton },
}

/// Whether the canvas consumed the event.
#[derive(Clone, Copy, Debug, PartialEq, Eq, Structural)]
pub enum EventStatus {
    Captured,
    Ignored,
}

/// A mutation request against the editor state: write `new_pixel` at
/// `pos`, starting a new history entry first iff `record` is set.
#[derive(Clone, Copy, Debug, PartialEq, Eq, Structural)]
pub struct PutPixel {
    pub new_pixel: Pixel,
    pub pos: Pos,
    pub record: bool,
}

/// The mathematical view of a mutation request.
#[verifier::ext_equal]
pub struct PutPixelModel {
    pub new_pixel: Pixel,
    pub column: int,
    pub row: int,
    pub record: bool,
}

/// The outcome of one pointer event: the next gesture state, whether the
/// canvas consumed the event, and the mutation request it issues, if any.
#[verifier::ext_equal]
pub struct HandleOutcome {
    pub state: CanvasState,
    pub status: EventStatus,
    pub request: Option<PutPixelModel>,
}

/// The outcome of an event the canvas ignores: nothing changes.
pub open spec fn spec_ignored(state: CanvasState) -> HandleOutcome {
    HandleOutcome { state, status: EventStatus::Ignored, request: None }
}

/// The transition table of the gesture machine.
///
/// A press of the primary (secondary) button on a valid cell starts a
/// drawing (erasing) gesture and asks for a recorded write of the brush
/// color (of the transparent pixel). A move inside a gesture asks for an
/// unrecorded write of the same pixel. A release of either of those
/// buttons ends the gesture. Everything else — events off the grid's
/// rectangle, presses without a position, other buttons, moves while idle
/// — is ignored and leaves the state unchanged.
pub open spec fn spec_handle(m: EditorModel, state: CanvasState, event: PointerEvent) -> HandleOutcome {
    match event {
        PointerEvent::Pressed { button, position } => {
            if button is Other {
                spec_ignored(state)
            } else {
                match position {
                    Some(p) => match spec_pos_on_grid(m, p.x as int, p.y as int) {
                        Some(cell) => HandleOutcome {
                            state: if button is Left {
                                CanvasState::Drawing
                            } else {
                                CanvasState::Erasing
                            },
                            status: EventStatus::Captured,
                            request: Some(
                                PutPixelModel {
                                    new_pixel: if button is Left {
                                        Pixel { color: m.brush_color }
                                    } else {
                                        Pixel { color: PixelColor::spec_transparent() }
                                    },
                                    column: cell.0,
                                    row: cell.1,
                                    record: true,
                                },
                            ),
                        },
                        None => spec_ignored(state),
                    },
                    None => spec_ignored(state),
                }
            }
        },
        PointerEvent::Moved { position } => {
            if state is Idle {
                spec_ignored(state)
            } else {
                match spec_pos_on_grid(m, position.x as int, position.y as int) {
                    Some(cell) => HandleOutcome {
                        state,
                        status: EventStatus::Captured,
                        request: Some(
                            PutPixelModel {
                                new_pixel: if state is Drawing {
                                    Pixel { color: m.brush_color }
                                } else {
                                    Pixel { color: PixelColor::spec_transparent() }
                                },
                                column: cell.0,
                                row: cell.1,
                                record: false,
                            },
                        ),
                    },
                    None => spec_ignored(state),
                }
            }
        },
        PointerEvent::Released { button } => {
            if (state is Drawing || state is Erasing) && (button is Left || button is Right) {
                HandleOutcome {
                    state: CanvasState::Idle,
                    status: EventStatus::Captured,
                    request: None,
                }
            } else {
                spec_ignored(state)
            }
        },
    }
}

/// One full event dispatch: the gesture machine decides, then the request
/// it issued, if any, is applied to the editor.
pub open spec fn spec_step(m: EditorModel, state: CanvasState, event: PointerEvent) -> (
    CanvasState,
    EditorModel,
) {
    let outcome = spec_handle(m, state, event);
    let m2 = match outcome.request {
        Some(req) => spec_put_pixel(m, req.new_pixel, req.column, req.row, req.record),
        None => m,
    };
    (outcome.state, m2)
}

/// Turns one pointer event into the next gesture state and an optional
/// mutation request, following the transition table of [`spec_handle`].
/// Issued requests always lie on the grid.
pub fn handle_event(editor: &EditorState, state: &mut CanvasState, event: PointerEvent) -> (r: (
    EventStatus,
    Option<PutPixel>,
))
    requires
        editor.wf(),
    ensures
        ({
            let outcome = spec_handle(editor.model(), *old(state), event);
            &&& *final(state) == outcome.state
            &&& r.0 == outcome.status
            &&& match (r.1, outcome.request) {
                (Some(req), Some(want)) => {
                    &&& req.new_pixel == want.new_pixel
                    &&& req.pos.column as int == want.column
                    &&& req.pos.row as int == want.row
                    &&& req.record == want.record
                    &&& req.pos.column < editor.columns
                    &&& req.pos.row < editor.rows
                },
                (None, None) => true,
                _ => false,
            }
        }),
{
    match event {
        PointerEvent::Pressed { button: MouseButton::Other, position: _ } => (
            EventStatus::Ignored,
            None,
        ),
        PointerEvent::Pressed { button, position } => {
            match position {
                Some(p) => {
                    match editor.pos_on_grid(p.x, p.y) {
                        Some((column, row)) => {
                            let drawing = matches!(button, MouseButton::Left);
                            *state = if drawing {
                                CanvasState::Drawing
                            } else {
                                CanvasState::Erasing
                            };
                            let color = if drawing {
                                editor.brush_color
                            } else {
                                PixelColor::transparent()
                            };
                            (
                                EventStatus::Captured,
                                Some(
                                    PutPixel {
                                        new_pixel: Pixel::new(color),
                                        pos: Pos { row, column },
                                        record: true,
                                    },
                                ),
                            )
                        },
                        None => (EventStatus::Ignored, None),
                    }
                },
                None => (EventStatus::Ignored, None),
            }
        },
        PointerEvent::Moved { position } => {
            match *state {
                CanvasState::Idle => (EventStatus::Ignored, None),
                CanvasState::Drawing | CanvasState::Erasing => {
                    match editor.pos_on_grid(position.x, position.y) {
                        Some((column, row)) => {
                            let color = if matches!(*state, CanvasState::Drawing) {
                                editor.brush_color
                            } else {
                                PixelColor::transparent()
                            };
                            (
                                EventStatus::Captured,
                                Some(
                                    PutPixel {
                                        new_pixel: Pixel::new(color),
                                        pos: Pos { row, column },
                                        record: false,
                                    },
                                ),
                            )
                        },
                        None => (EventStatus::Ignored, None),
                    }
                },
            }
        },
        PointerEvent::Released { button } => {
            let in_gesture = !matches!(*state, CanvasState::Idle);
            let ends = in_gesture && !matches!(button, MouseButton::Other);
            if ends {
                *state = CanvasState::Idle;
                (EventStatus::Captured, None)
            } else {
                (EventStatus::Ignored, None)
            }
        },
    }
}

/// Dispatches one pointer event end to end: the gesture machine decides,
/// and the mutation request, if any, is applied to the editor.
pub fn step(editor: &mut EditorState, state: &mut CanvasState, event: PointerEvent) -> (status:
    EventStatus)
    requires
        old(editor).wf(),
        old(editor).next_id < u64::MAX,
    ensures
        final(editor).wf(),
        ({
            let (s2, m2) = spec_step(old(editor).model(), *old(state), event);
            &&& *final(state) == s2
            &&& final(editor).model() == m2
            &&& status == spec_handle(old(editor).model(), *old(state), event).status
        }),
{
    let (status, request) = handle_event(editor, state, event);
    match request {
        Some(req) => {
            editor.put_pixel(req.new_pixel, req.pos.column, req.pos.row, req.record);
        },
        None => {},
    }
    status
}

/// A pointer-move at a position outside the grid's rectangle never
/// produces a mutation and never changes the interaction state, whatever
/// state the gesture machine is in.
pub proof fn lemma_move_outside_is_inert(m: EditorModel, state: CanvasState, x: i64, y: i64)
    requires
        spec_pos_on_grid(m, x as int, y as int) is None,
    ensures
        spec_step(m, state, PointerEvent::Moved { position: Position { x, y } }).0 == state,
        spec_step(m, state, PointerEvent::Moved { position: Position { x, y } }).1 == m,
        spec_handle(m, state, PointerEvent::Moved { position: Position { x, y } }).request
            is None,
{
}

/// One gesture, one history entry: a pointer-down on a valid cell followed
/// by two pointer-moves over valid cells appends exactly one entry to the
/// history — the pre-stroke state — and performs three cell writes, one
/// per event, of the gesture's pixel (the brush color for the primary
/// button, the transparent pixel for the secondary one).
///
/// The gesture must actually have something to preserve: when the last
/// history entry already references the current grid instance (as right
/// after an undo or a bare record), the initiating `record` appends
/// nothing, by design.
pub proof fn lemma_gesture_records_once(
    m: EditorModel,
    state: CanvasState,
    button: MouseButton,
    x0: i64,
    y0: i64,
    c0: int,
    r0: int,
    x1: i64,
    y1: i64,
    c1: int,
    r1: int,
    x2: i64,
    y2: i64,
    c2: int,
    r2: int,
)
    requires
        m.wf(),
        button is Left || button is Right,
        m.history.entries.len() == 0 || m.history.entries.last().id != m.current.id,
        spec_pos_on_grid(m, x0 as int, y0 as int) == Some((c0, r0)),
        spec_pos_on_grid(m, x1 as int, y1 as int) == Some((c1, r1)),
        spec_pos_on_grid(m, x2 as int, y2 as int) == Some((c2, r2)),
    ensures
        ({
            let pixel = if button is Left {
                Pixel { color: m.brush_color }
            } else {
                Pixel { color: PixelColor::spec_transparent() }
            };
            let (s1, m1) = spec_step(
                m,
                state,
                PointerEvent::Pressed { button, position: Some(Position { x: x0, y: y0 }) },
            );
            let (s2, m2) = spec_step(m1, s1, PointerEvent::Moved { position: Position { x: x1, y: y1 } });
            let (s3, m3) = spec_step(m2, s2, PointerEvent::Moved { position: Position { x: x2, y: y2 } });
            &&& s1 == s3 && s2 == s3
            &&& s3 == if button is Left {
                CanvasState::Drawing
            } else {
                CanvasState::Erasing
            }
            &&& m3.history.entries == m.history.entries.push(m.current)
            &&& m3.history.cursor is None
            &&& m3.current.cells == set_cell(
                set_cell(set_cell(m.current.cells, c0, r0, pixel), c1, r1, pixel),
                c2,
                r2,
                pixel,
            )
        }),
{
    let pixel = if button is Left {
        Pixel { color: m.brush_color }
    } else {
        Pixel { color: PixelColor::spec_transparent() }
    };
    let m1 = spec_put_pixel(m, pixel, c0, r0, true);
    let rec = spec_record(m);
    assert(rec.history.entries == m.history.entries.push(m.current));
    assert(rec.history.entries[m.history.entries.len() as int] == m.current);
    assert(hist_shares_id(rec.history.entries, rec.current.id));
    assert(m1.history.entries == rec.history.entries);
    assert(m1.current.id == m.next_id);
    assert forall|i: int|
        0 <= i < m1.history.entries.len() implies (#[trigger] m1.history.entries[i]).id
        != m1.current.id by {
        if i < m.history.entries.len() {
            assert(m.history.entries[i].id < m.next_id);
        } else {
            assert(m1.history.entries[i] == m.current);
        }
    }
    assert(!hist_shares_id(m1.history.entries, m1.current.id));
    let m2 = spec_put_pixel(m1, pixel, c1, r1, false);
    assert(m2.history.entries == m1.history.entries);
    assert(m2.current.id == m1.current.id);
    assert(!hist_shares_id(m2.history.entries, m2.current.id));
    let m3 = spec_put_pixel(m2, pixel, c2, r2, false);
    assert(m3.history.entries == m.history.entries.push(m.current));
}

} // verus!
