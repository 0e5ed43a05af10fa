//! Tests of the grid and of the record/undo protocol.

use pxtogether::editor::{EditorState, LoadError};
use pxtogether::grid::Grid;
use pxtogether::interact::Pos;
use pxtogether::message::{apply, Message};
use pxtogether::pixel::{Pixel, PixelColor};

fn red() -> Pixel {
    Pixel::new(PixelColor { r: 0x3F80_0000, g: 0, b: 0, a: 0x3F80_0000 })
}

fn blue() -> Pixel {
    Pixel::new(PixelColor { r: 0, g: 0, b: 0x3F80_0000, a: 0x3F80_0000 })
}

fn small_editor() -> EditorState {
    EditorState::new(2, 2, 40, 40, PixelColor { r: 0, g: 0, b: 0, a: 0x3F80_0000 })
}

#[test]
fn grid_new_all_default() {
    let g = Grid::new(3, 2);
    for column in 0..2 {
        for row in 0..3 {
            assert_eq!(g.get(column, row), Pixel::default());
        }
    }
}

#[test]
fn duplicate_is_isolated() {
    let g = Grid::new(2, 2);
    let mut d = g.duplicate();
    d.set(0, 0, red());
    assert_eq!(g.get(0, 0), Pixel::default());
    assert_eq!(d.get(0, 0), red());
    assert_eq!(d.get(1, 1), Pixel::default());
}

#[test]
fn record_twice_appends_once() {
    let mut e = small_editor();
    e.record();
    assert_eq!(e.history.entries.len(), 1);
    e.record();
    assert_eq!(e.history.entries.len(), 1);
    assert!(e.history.cursor.is_none());
}

#[test]
fn undo_on_empty_history_is_noop() {
    let mut e = small_editor();
    e.undo();
    assert_eq!(e.history.entries.len(), 0);
    assert!(e.history.cursor.is_none());
    for column in 0..2 {
        for row in 0..2 {
            assert_eq!(e.cell(column, row), Pixel::default());
        }
    }
}

#[test]
fn undo_sequence_walks_back_through_records() {
    let mut e = small_editor();
    e.record();
    e.put_pixel(red(), 0, 0, false);
    e.record();
    e.put_pixel(blue(), 1, 1, false);
    assert_eq!(e.history.entries.len(), 2);

    e.undo();
    assert_eq!(e.cell(0, 0), red());
    assert_eq!(e.cell(1, 1), Pixel::default());
    assert_eq!(e.history.cursor, Some(1));
    assert_eq!(e.history.entries.len(), 3);

    e.undo();
    assert_eq!(e.cell(0, 0), Pixel::default());
    assert_eq!(e.cell(1, 1), Pixel::default());
    assert_eq!(e.history.cursor, Some(0));
    assert_eq!(e.history.entries.len(), 4);

    e.undo();
    assert_eq!(e.cell(0, 0), Pixel::default());
    assert_eq!(e.cell(1, 1), Pixel::default());
    assert_eq!(e.history.cursor, Some(0));
    assert_eq!(e.history.entries.len(), 4);
}

#[test]
fn emacs_style_redo_steps_into_the_tail() {
    let mut e = small_editor();
    e.record();
    e.put_pixel(red(), 0, 0, false);
    e.record();
    e.put_pixel(blue(), 1, 1, false);

    e.undo();
    assert_eq!(e.cell(1, 1), Pixel::default());

    // Redo: record to leave the undo chain, then undo twice to step back
    // into the tail of previously undone states.
    e.record();
    e.undo();
    e.undo();
    assert_eq!(e.cell(0, 0), red());
    assert_eq!(e.cell(1, 1), blue());
}

#[test]
fn put_pixel_leaves_snapshots_unchanged() {
    let mut e = small_editor();
    e.put_pixel(red(), 0, 0, true);
    assert_eq!(e.history.entries.len(), 1);
    assert_eq!(e.history.entries[0].grid.get(0, 0), Pixel::default());
    assert_eq!(e.cell(0, 0), red());
}

#[test]
fn clear_history_forgets_snapshots_keeps_grid() {
    let mut e = small_editor();
    e.put_pixel(red(), 0, 0, true);
    e.clear_history();
    assert_eq!(e.history.entries.len(), 0);
    assert!(e.history.cursor.is_none());
    assert_eq!(e.cell(0, 0), red());
}

#[test]
fn clear_resets_cells_as_one_undoable_step() {
    let mut e = small_editor();
    e.put_pixel(red(), 0, 0, true);
    e.clear();
    assert_eq!(e.cell(0, 0), Pixel::default());
    e.undo();
    assert_eq!(e.cell(0, 0), red());
}

#[test]
fn brush_channel_setters() {
    let mut e = small_editor();
    e.set_brush_red(7);
    e.set_brush_green(8);
    e.set_brush_blue(9);
    assert_eq!(e.brush_color, PixelColor { r: 7, g: 8, b: 9, a: 0x3F80_0000 });
}

#[test]
fn load_replaces_current_and_empties_history() {
    let mut e = small_editor();
    e.put_pixel(red(), 0, 0, true);
    let cells = vec![
        vec![blue(), Pixel::default()],
        vec![Pixel::default(), blue()],
    ];
    assert!(e.load_cells(&cells).is_ok());
    assert_eq!(e.history.entries.len(), 0);
    assert!(e.history.cursor.is_none());
    assert_eq!(e.cell(0, 0), blue());
    assert_eq!(e.cell(0, 1), Pixel::default());
    assert_eq!(e.cell(1, 1), blue());
}

#[test]
fn load_of_bad_shape_changes_nothing() {
    let mut e = small_editor();
    e.put_pixel(red(), 0, 0, true);
    let ragged = vec![vec![blue(), blue()], vec![blue()]];
    assert_eq!(e.load_cells(&ragged), Err(LoadError::DecodeFailure));
    let wrong_width = vec![vec![blue(), blue()]];
    assert_eq!(e.load_cells(&wrong_width), Err(LoadError::DecodeFailure));
    assert_eq!(e.history.entries.len(), 1);
    assert!(e.history.cursor.is_none());
    assert_eq!(e.cell(0, 0), red());
    assert_eq!(e.cell(1, 1), Pixel::default());
}

#[test]
fn export_cells_mirrors_current_grid() {
    let mut e = small_editor();
    e.put_pixel(red(), 1, 0, true);
    let cells = e.export_cells();
    assert_eq!(cells.len(), 2);
    assert_eq!(cells[0].len(), 2);
    assert_eq!(cells[1][0], red());
    assert_eq!(cells[0][0], Pixel::default());
}

#[test]
fn messages_drive_the_same_protocol() {
    let mut e = small_editor();
    assert!(apply(
        &mut e,
        Message::PutPixel { new_pixel: red(), pos: Pos { row: 0, column: 0 }, record: true }
    )
    .is_ok());
    assert_eq!(e.history.entries.len(), 1);
    assert_eq!(e.cell(0, 0), red());

    assert!(apply(&mut e, Message::ChangeRed(3)).is_ok());
    assert!(apply(&mut e, Message::ChangeGreen(4)).is_ok());
    assert!(apply(&mut e, Message::ChangeBlue(5)).is_ok());
    assert_eq!(e.brush_color, PixelColor { r: 3, g: 4, b: 5, a: 0x3F80_0000 });

    assert!(apply(&mut e, Message::Undo).is_ok());
    assert_eq!(e.cell(0, 0), Pixel::default());

    assert!(apply(&mut e, Message::Record).is_ok());
    assert!(apply(&mut e, Message::Clear).is_ok());
    assert_eq!(e.cell(0, 0), Pixel::default());

    let bad = Message::LoadData { cells: vec![vec![red()]] };
    assert_eq!(apply(&mut e, bad), Err(LoadError::DecodeFailure));
}

#[test]
fn default_editor_geometry() {
    let e = EditorState::default();
    assert_eq!(e.rows, 16);
    assert_eq!(e.columns, 16);
    assert_eq!(e.grid_size(), (641, 641));
    assert_eq!(
        e.brush_color,
        PixelColor { r: 0, g: 0x3F80_0000, b: 0x3F80_0000, a: 0x3F80_0000 }
    );
}
