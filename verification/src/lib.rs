//! The edit engine of a small terminal text editor: a buffer of text lines,
//! the primitives that change it, and the table that maps a key press and a
//! cursor position to the next buffer and the next cursor position.

pub mod actions;
pub mod buffer;
pub mod chars;
pub mod dispatch;
pub mod keys;
pub mod laws;
pub mod line;
