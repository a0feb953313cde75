//! The text engine of a terminal editor: an editable store of lines, a cursor
//! that moves over grapheme clusters, a viewport that follows the cursor, and
//! the composition of a frame as positioned draw instructions.

pub mod cursor;
pub mod editor;
pub mod graphemes;
pub mod highlight;
pub mod lines;
pub mod outputlog;
pub mod strings;
pub mod style;
pub mod syntax;
pub mod terminal;
pub mod viewport;
