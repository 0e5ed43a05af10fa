//! Tests of the coordinate lookup and the pointer-gesture state machine.

use pxtogether::editor::EditorState;
use pxtogether::interact::{
    handle_event, step, CanvasState, EventStatus, MouseButton, PointerEvent, Position,
};
use pxtogether::pixel::{Pixel, PixelColor};

fn pressed(button: MouseButton, x: i64, y: i64) -> PointerEvent {
    PointerEvent::Pressed { button, position: Some(Position { x, y }) }
}

fn moved(x: i64, y: i64) -> PointerEvent {
    PointerEvent::Moved { position: Position { x, y } }
}

#[test]
fn pos_on_grid_maps_cells() {
    let e = EditorState::default();
    assert_eq!(e.pos_on_grid(0, 0), Some((0, 0)));
    assert_eq!(e.pos_on_grid(39, 39), Some((0, 0)));
    assert_eq!(e.pos_on_grid(40, 0), Some((1, 0)));
    assert_eq!(e.pos_on_grid(0, 79), Some((0, 1)));
    assert_eq!(e.pos_on_grid(640, 640), Some((15, 15)));
}

#[test]
fn pos_outside_rectangle_is_none() {
    let e = EditorState::default();
    assert_eq!(e.pos_on_grid(641, 5), None);
    assert_eq!(e.pos_on_grid(5, 641), None);
    assert_eq!(e.pos_on_grid(-1, 5), None);
    assert_eq!(e.pos_on_grid(5, -1), None);
}

#[test]
fn gesture_records_once_and_writes_each_event() {
    let mut e = EditorState::default();
    let mut state = CanvasState::default();
    let brush = Pixel::new(e.brush_color);

    assert_eq!(step(&mut e, &mut state, pressed(MouseButton::Left, 5, 5)), EventStatus::Captured);
    assert!(matches!(state, CanvasState::Drawing));
    assert_eq!(step(&mut e, &mut state, moved(45, 5)), EventStatus::Captured);
    assert_eq!(step(&mut e, &mut state, moved(85, 5)), EventStatus::Captured);

    assert_eq!(e.history.entries.len(), 1);
    assert_eq!(e.cell(0, 0), brush);
    assert_eq!(e.cell(1, 0), brush);
    assert_eq!(e.cell(2, 0), brush);
    assert_eq!(e.history.entries[0].grid.get(0, 0), Pixel::default());

    assert_eq!(
        step(&mut e, &mut state, PointerEvent::Released { button: MouseButton::Left }),
        EventStatus::Captured
    );
    assert!(matches!(state, CanvasState::Idle));
    assert_eq!(e.history.entries.len(), 1);
}

#[test]
fn one_undo_reverts_a_whole_stroke() {
    let mut e = EditorState::default();
    let mut state = CanvasState::default();
    step(&mut e, &mut state, pressed(MouseButton::Left, 5, 5));
    step(&mut e, &mut state, moved(45, 5));
    step(&mut e, &mut state, PointerEvent::Released { button: MouseButton::Left });
    e.undo();
    assert_eq!(e.cell(0, 0), Pixel::default());
    assert_eq!(e.cell(1, 0), Pixel::default());
}

#[test]
fn secondary_button_erases() {
    let mut e = EditorState::default();
    let mut state = CanvasState::default();
    step(&mut e, &mut state, pressed(MouseButton::Left, 5, 5));
    step(&mut e, &mut state, PointerEvent::Released { button: MouseButton::Left });

    step(&mut e, &mut state, pressed(MouseButton::Right, 5, 5));
    assert!(matches!(state, CanvasState::Erasing));
    step(&mut e, &mut state, moved(45, 5));
    assert_eq!(e.cell(0, 0), Pixel::new(PixelColor { r: 0, g: 0, b: 0, a: 0 }));
    assert_eq!(e.cell(1, 0), Pixel::new(PixelColor { r: 0, g: 0, b: 0, a: 0 }));
}

#[test]
fn move_outside_is_ignored_and_state_kept() {
    let mut e = EditorState::default();
    let mut state = CanvasState::default();
    step(&mut e, &mut state, pressed(MouseButton::Left, 5, 5));
    let before = e.export_cells();
    let entries_before = e.history.entries.len();

    assert_eq!(step(&mut e, &mut state, moved(10_000, 5)), EventStatus::Ignored);
    assert!(matches!(state, CanvasState::Drawing));
    assert_eq!(e.export_cells(), before);
    assert_eq!(e.history.entries.len(), entries_before);
}

#[test]
fn move_while_idle_is_ignored() {
    let mut e = EditorState::default();
    let mut state = CanvasState::default();
    assert_eq!(step(&mut e, &mut state, moved(5, 5)), EventStatus::Ignored);
    assert!(matches!(state, CanvasState::Idle));
    assert_eq!(e.cell(0, 0), Pixel::default());
    assert_eq!(e.history.entries.len(), 0);
}

#[test]
fn press_without_position_or_other_button_is_ignored() {
    let mut e = EditorState::default();
    let mut state = CanvasState::default();
    let (status, request) = handle_event(
        &e,
        &mut state,
        PointerEvent::Pressed { button: MouseButton::Left, position: None },
    );
    assert_eq!(status, EventStatus::Ignored);
    assert!(request.is_none());

    let (status, request) = handle_event(&e, &mut state, pressed(MouseButton::Other, 5, 5));
    assert_eq!(status, EventStatus::Ignored);
    assert!(request.is_none());
    assert!(matches!(state, CanvasState::Idle));
}

#[test]
fn press_issues_recorded_request_on_the_hit_cell() {
    let e = EditorState::default();
    let mut state = CanvasState::default();
    let (status, request) = handle_event(&e, &mut state, pressed(MouseButton::Left, 45, 85));
    assert_eq!(status, EventStatus::Captured);
    let req = request.expect("a press on the grid issues a request");
    assert_eq!(req.pos.column, 1);
    assert_eq!(req.pos.row, 2);
    assert!(req.record);
    assert_eq!(req.new_pixel, Pixel::new(e.brush_color));
}
