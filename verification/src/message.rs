//! The editor's message handler.
//!
//! Every user-interface message that touches the engine's state funnels
//! through [`apply`]: one message in, one state transition out. The
//! hosting event loop keeps for itself only what the engine cannot hold —
//! issuing file dialogs, pushing encoded bytes to disk, and repainting.

use vstd::prelude::*;

use crate::editor::{
    grid_model_wf, spec_clear, spec_load, spec_put_pixel, spec_record, spec_undo, EditorModel,
    EditorState, LoadError,
};
use crate::grid::columns_view;
use crate::interact::Pos;
use crate::pixel::{Pixel, PixelColor};

verus! {

/// A state-touching message from the user interface: a mutation request
/// issued by the gesture machine, one of the history buttons, a brush
/// slider, or the cells decoded from a loaded file.
pub enum Message {
    PutPixel { new_pixel: Pixel, pos: Pos, record: bool },
    Record,
    Undo,
    Clear,
    ChangeRed(u32),
    ChangeGreen(u32),
    ChangeBlue(u32),
    LoadData { cells: Vec<Vec<Pixel>> },
}

/// Applies one message to the editor. Only a load can fail, and only by
/// rejecting data of the wrong shape, in which case the state is left
/// exactly as it was.
pub fn apply(editor: &mut EditorState, message: Message) -> (r: Result<(), LoadError>)
    requires
        old(editor).wf(),
        old(editor).next_id < u64::MAX,
        message matches Message::PutPixel { pos, .. } ==> pos.column < old(editor).columns
            && pos.row < old(editor).rows,
    ensures
        final(editor).wf(),
        match message {
            Message::PutPixel { new_pixel, pos, record } => r is Ok && final(editor).model()
                == spec_put_pixel(
                old(editor).model(),
                new_pixel,
                pos.column as int,
                pos.row as int,
                record,
            ),
            Message::Record => r is Ok && final(editor).model() == spec_record(
                old(editor).model(),
            ),
            Message::Undo => r is Ok && final(editor).model() == spec_undo(old(editor).model()),
            Message::Clear => r is Ok && final(editor).model() == spec_clear(old(editor).model()),
            Message::ChangeRed(channel) => r is Ok && final(editor).model() == (EditorModel {
                brush_color: PixelColor { r: channel, ..old(editor).brush_color },
                ..old(editor).model()
            }),
            Message::ChangeGreen(channel) => r is Ok && final(editor).model() == (EditorModel {
                brush_color: PixelColor { g: channel, ..old(editor).brush_color },
                ..old(editor).model()
            }),
            Message::ChangeBlue(channel) => r is Ok && final(editor).model() == (EditorModel {
                brush_color: PixelColor { b: channel, ..old(editor).brush_color },
                ..old(editor).model()
            }),
            Message::LoadData { cells } => {
                &&& r is Ok <==> grid_model_wf(
                    columns_view(cells@),
                    old(editor).columns as int,
                    old(editor).rows as int,
                )
                &&& r is Ok ==> final(editor).model() == spec_load(
                    old(editor).model(),
                    columns_view(cells@),
                )
                &&& r is Err ==> final(editor).model() == old(editor).model()
            },
        },
{
    match message {
        Message::PutPixel { new_pixel, pos, record } => {
            editor.put_pixel(new_pixel, pos.column, pos.row, record);
            Ok(())
        },
        Message::Record => {
            editor.record();
            Ok(())
        },
        Message::Undo => {
            editor.undo();
            Ok(())
        },
        Message::Clear => {
            editor.clear();
            Ok(())
        },
        Message::ChangeRed(channel) => {
            editor.set_brush_red(channel);
            Ok(())
        },
        Message::ChangeGreen(channel) => {
            editor.set_brush_green(channel);
            Ok(())
        },
        Message::ChangeBlue(channel) => {
            editor.set_brush_blue(channel);
            Ok(())
        },
        Message::LoadData { cells } => editor.load_cells(&cells),
    }
}

} // verus!
