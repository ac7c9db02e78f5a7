//! A minimal terminal text editor, as a verified library.
//!
//! The library holds the editor's logic: the tab-expanded rendering of rows,
//! the line buffer and its edits, the decoder that turns terminal bytes into
//! input events, the cursor and viewport, the repaint of the screen and the
//! dispatch of commands. Everything here works on plain values; reading the
//! terminal, writing frames and files, and telling the time are left to the
//! program that drives the library.

pub mod ascii;
pub mod buffer;
pub mod editor;
pub mod input;
pub mod row;
pub mod screen;
pub mod session;
pub mod status;
pub mod tabs;
pub mod terminal;
pub mod text;
