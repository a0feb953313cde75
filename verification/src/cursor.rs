//! The cursor: a position in the line store, and the column it would like to
//! be in.

use vstd::prelude::*;

verus! {

/// A position in the line store, addressed in grapheme clusters.
///
/// `preferred_grapheme_index` remembers the column that vertical moves try to
/// return to on lines long enough to hold it.
#[derive(Clone, Copy, Debug, PartialEq, Eq, Structural)]
pub struct Cursor {
    pub line_index: usize,
    pub grapheme_index: usize,
    pub preferred_grapheme_index: usize,
}

impl Cursor {
    /// The cursor at `(line_index, grapheme_index)` that prefers the column it
    /// is in.
    pub open spec fn at(line_index: usize, grapheme_index: usize) -> Cursor {
        Cursor { line_index, grapheme_index, preferred_grapheme_index: grapheme_index }
    }

    /// The cursor of a fresh editor: the start of the first line.
    pub fn origin() -> (cursor: Cursor)
        ensures
            cursor == Cursor::at(0, 0),
    {
        Cursor { line_index: 0, grapheme_index: 0, preferred_grapheme_index: 0 }
    }
}

} // verus!
