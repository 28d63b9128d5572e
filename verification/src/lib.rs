//! The core of a minimal terminal text editor: a line-oriented text buffer,
//! a cursor that is always kept inside it, and the rules that decide what is
//! sent to the display after each key. A document may have no line at all;
//! the cursor then rests at the origin until something is typed.

pub mod buffer;
pub mod cursor;
pub mod display;
pub mod editor;
pub mod key;
pub mod laws;
pub mod terminal;
pub mod width;
