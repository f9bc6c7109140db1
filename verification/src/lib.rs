//! A modal, line-oriented text editor core.
//!
//! The crate holds the editor's state machine and its text model: how raw
//! file bytes become lines and back, how the cursor moves over them, how key
//! presses edit them, and what a frame of the screen shows. Terminal and file
//! access are left to the caller, which feeds key presses in and carries the
//! requested actions out.

pub mod cursor;
pub mod editor;
pub mod editor_core;
pub mod encoding;
pub mod error;
pub mod lines;
pub mod text_buffer;
