//! A small terminal text editor core: a document buffer and a single-line
//! prompt buffer behind one caret-editing interface, the mode state machine
//! that owns them, and the rendering of both onto a bounded terminal screen.
//!
//! The library holds no input or output of its own. A program around it
//! reads keys and files, hands them over as plain values, and writes the
//! text that [`print_screen`] gives back.

pub mod buffer;
pub mod chars;
pub mod editor;
pub mod error;
pub mod file_buffer;
pub mod laws;
pub mod line_buffer;
pub mod lines;
pub mod render;
pub mod screen;
pub mod terminal;

pub use crate::buffer::Buffer;
pub use crate::chars::{to_str, to_vec};
pub use crate::editor::{Action, ActiveBuffer, Command, Editor, Key, State};
pub use crate::error::Error;
pub use crate::file_buffer::FileBuffer;
pub use crate::line_buffer::LineBuffer;
pub use crate::render::{render, Frame};
pub use crate::screen::Screen;
pub use crate::terminal::{handle_keys, print_screen};
