//! A collaborative drawing surface's core: the input interpreter, the text
//! editing session, the action log with its undo, and the replication
//! batches handed to a transport.
//!
//! Coordinates are whole device pixels and colours are RGBA bytes; the
//! rendering layer maps them into its own spaces.

pub mod ids;
pub mod input;
pub mod log;
pub mod structs;
pub mod text;
pub mod wire;
pub mod window;

pub use crate::structs::{Action, ActionId, ActionType, Point, Rect, Rectangle, Rgba, TextEntries, Vertex};
pub use crate::wire::{BatchKind, PaintBatch, WireAction};
pub use crate::log::ActionLog;
pub use crate::text::TextSession;
pub use crate::input::{Gesture, InputEvent, Key, MouseButton};
pub use crate::window::WindowState;
