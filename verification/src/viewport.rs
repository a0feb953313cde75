//! The viewport: the rectangle of the document that is on screen, and the
//! clamp that keeps the cursor inside it.

use crate::cursor::Cursor;
use vstd::prelude::*;

verus! {

/// The visible rectangle: its first line, its first grapheme column, and its
/// extent in rows and columns.
#[derive(Clone, Copy, Debug, PartialEq, Eq, Structural)]
pub struct Viewport {
    pub top_line: usize,
    pub left_grapheme: usize,
    pub rows: usize,
    pub cols: usize,
}

/// How far the last visible index lies from the first. A window without
/// extent is treated as a window of one.
pub open spec fn reach(extent: int) -> int {
    if extent >= 1 {
        extent - 1
    } else {
        0
    }
}

/// The start of a window of `extent` indices that began at `offset`, after
/// the least shift that brings `target` into it.
pub open spec fn clamp_axis(offset: int, extent: int, target: int) -> int {
    if target < offset {
        target
    } else if target > offset + reach(extent) {
        target - reach(extent)
    } else {
        offset
    }
}

fn clamp_offset(offset: usize, extent: usize, target: usize) -> (start: usize)
    ensures
        start == clamp_axis(offset as int, extent as int, target as int),
{
    let reach: usize = if extent >= 1 {
        extent - 1
    } else {
        0
    };
    if target < offset {
        target
    } else if target - offset > reach {
        target - reach
    } else {
        offset
    }
}

impl Viewport {
    /// Whether the cursor's line and column both lie inside the rectangle.
    pub open spec fn shows(self, cursor: Cursor) -> bool {
        &&& self.top_line <= cursor.line_index <= self.top_line + self.rows - 1
        &&& self.left_grapheme <= cursor.grapheme_index <= self.left_grapheme + self.cols - 1
    }

    /// The viewport after the least scroll that brings `cursor` into it. The
    /// extent is kept.
    pub open spec fn clamped_to(self, cursor: Cursor) -> Viewport {
        Viewport {
            top_line: clamp_axis(
                self.top_line as int,
                self.rows as int,
                cursor.line_index as int,
            ) as usize,
            left_grapheme: clamp_axis(
                self.left_grapheme as int,
                self.cols as int,
                cursor.grapheme_index as int,
            ) as usize,
            rows: self.rows,
            cols: self.cols,
        }
    }

    /// The viewport with another extent, at the same place.
    pub open spec fn resized(self, cols: usize, rows: usize) -> Viewport {
        Viewport { rows, cols, ..self }
    }

    /// The viewport one line further down, as far as line numbers go.
    pub open spec fn scrolled_down(self) -> Viewport {
        Viewport {
            top_line: if self.top_line < usize::MAX {
                (self.top_line + 1) as usize
            } else {
                self.top_line
            },
            ..self
        }
    }

    /// The viewport one line further up, unless it is at the top already.
    pub open spec fn scrolled_up(self) -> Viewport {
        Viewport {
            top_line: if self.top_line > 0 {
                (self.top_line - 1) as usize
            } else {
                self.top_line
            },
            ..self
        }
    }

    /// A viewport at the top left corner of the document.
    pub fn new(cols: usize, rows: usize) -> (viewport: Viewport)
        ensures
            viewport == (Viewport { top_line: 0, left_grapheme: 0, rows, cols }),
    {
        Viewport { top_line: 0, left_grapheme: 0, rows, cols }
    }

    /// Scrolls just far enough to show `cursor`, and not at all if it is
    /// visible already.
    pub fn clamp_to(self, cursor: Cursor) -> (clamped: Viewport)
        ensures
            clamped == self.clamped_to(cursor),
            self.rows >= 1 && self.cols >= 1 ==> clamped.shows(cursor),
            self.shows(cursor) ==> clamped == self,
    {
        Viewport {
            top_line: clamp_offset(self.top_line, self.rows, cursor.line_index),
            left_grapheme: clamp_offset(self.left_grapheme, self.cols, cursor.grapheme_index),
            rows: self.rows,
            cols: self.cols,
        }
    }

    /// After a clamp the cursor lies inside the rectangle, whenever the
    /// rectangle has at least one row and one column.
    pub proof fn lemma_clamp_shows_cursor(self, cursor: Cursor)
        requires
            self.rows >= 1,
            self.cols >= 1,
        ensures
            self.clamped_to(cursor).shows(cursor),
    {
    }

    /// Clamping a second time to the same cursor changes nothing.
    pub proof fn lemma_clamp_idempotent(self, cursor: Cursor)
        ensures
            self.clamped_to(cursor).clamped_to(cursor) == self.clamped_to(cursor),
    {
    }

    /// A viewport that shows the cursor already is left where it is.
    pub proof fn lemma_clamp_keeps_visible(self, cursor: Cursor)
        requires
            self.shows(cursor),
        ensures
            self.clamped_to(cursor) == self,
    {
    }
}

} // verus!
