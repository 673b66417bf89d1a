//! Rendering and navigation core of a terminal text editor.
//!
//! The crate keeps a text buffer, maps between text space (line index,
//! grapheme index) and screen space (row, display column), and keeps a
//! scrolling viewport synchronized with a moving cursor.  All state
//! transitions are pure; the terminal driver and the key-event decoder
//! live outside this crate and talk to it through plain values.

pub mod buffer;
pub mod command;
pub mod editor_view;
pub mod line;
pub mod location;
pub mod position;
pub mod text;

pub use buffer::Buffer;
pub use command::{Direction, EditorCommand};
pub use editor_view::EditorView;
pub use line::Line;
pub use location::Location;
pub use position::{Position, Size};
