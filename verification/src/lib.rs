//! Pixel-grid editor state engine.
//!
//! An in-memory grid of colored cells, snapshot history with emacs-style
//! undo, and the pointer-gesture state machine that turns pointer events
//! into grid mutations. The hosting GUI toolkit delivers events and renders
//! the grid; this crate owns the state and the rules.

pub mod editor;
pub mod grid;
pub mod interact;
pub mod message;
pub mod pixel;

pub use editor::{EditorState, History, LoadError, Snapshot};
pub use grid::Grid;
pub use interact::{CanvasState, EventStatus, MouseButton, PointerEvent, Pos, Position, PutPixel};
pub use message::Message;
pub use pixel::{Pixel, PixelColor};
