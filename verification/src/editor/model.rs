//! What an editor stands for, and what each operation makes of it.

use crate::cursor::Cursor;
use crate::graphemes::{grapheme_count, with_char_inserted, with_grapheme_removed};
use crate::lines::{
    join_lines,
    lemma_join_split_round_trip,
    split_lines,
    survives_round_trip,
    terminator,
};
use crate::viewport::Viewport;
use vstd::prelude::*;

verus! {

/// The state of an editor as plain values.
pub struct EditorView {
    /// The text of each line.
    pub lines: Seq<Seq<char>>,
    pub cursor: Cursor,
    pub viewport: Viewport,
    /// Whether the lines are as they were last saved.
    pub current: bool,
    pub path: Seq<char>,
    pub header_msg: Seq<char>,
    pub extension: Seq<char>,
    pub theme_name: Seq<char>,
    pub show_cursor: bool,
    pub use_crlf: bool,
    pub tab_width: u8,
}

impl EditorView {
    /// The state of an editor that has just opened `content` under `path`.
    pub open spec fn opened(path: Seq<char>, content: Seq<char>) -> EditorView {
        EditorView {
            lines: split_lines(content),
            cursor: Cursor::at(0, 0),
            viewport: Viewport { top_line: 0, left_grapheme: 0, rows: 0, cols: 0 },
            current: false,
            path,
            header_msg: Seq::empty(),
            extension: Seq::empty(),
            theme_name: Seq::empty(),
            show_cursor: true,
            use_crlf: true,
            tab_width: 4,
        }
    }

    /// The cursor stands on a line of the store, at one of its grapheme
    /// boundaries.
    pub open spec fn cursor_in_bounds(self) -> bool {
        &&& self.cursor.line_index < self.lines.len()
        &&& self.cursor.grapheme_index <= grapheme_count(
            self.lines[self.cursor.line_index as int],
        )
    }

    /// The invariant of an editor: at least one line and no more than can be
    /// counted, the cursor in bounds, and tab stops at least one column
    /// apart.
    pub open spec fn valid(self) -> bool {
        &&& 1 <= self.lines.len() <= usize::MAX
        &&& self.cursor_in_bounds()
        &&& self.tab_width >= 1
    }

    /// The title: the path, behind an asterisk while there are unsaved
    /// changes.
    pub open spec fn title(self) -> Seq<char> {
        if self.current {
            self.path
        } else {
            seq!['*'] + self.path
        }
    }

    /// The text of the line that the cursor is on.
    pub open spec fn current_line(self) -> Seq<char> {
        self.lines[self.cursor.line_index as int]
    }

    /// The number of grapheme clusters of line `index`.
    pub open spec fn line_length(self, index: int) -> nat {
        grapheme_count(self.lines[index])
    }

    /// The column that a cursor arriving on line `index` takes: the preferred
    /// one, or the end of the line where the line is too short for it.
    pub open spec fn column_on(self, index: int) -> usize {
        if self.cursor.preferred_grapheme_index <= self.line_length(index) {
            self.cursor.preferred_grapheme_index
        } else {
            self.line_length(index) as usize
        }
    }

    /// The cursor put at `cursor`, and the viewport scrolled after it.
    pub open spec fn with_cursor(self, cursor: Cursor) -> EditorView {
        EditorView { cursor, viewport: self.viewport.clamped_to(cursor), ..self }
    }

    /// The preferred column forgotten in favour of the one the cursor is in.
    pub open spec fn collapse_preference(self) -> EditorView {
        EditorView {
            cursor: Cursor::at(self.cursor.line_index, self.cursor.grapheme_index),
            ..self
        }
    }

    /// The cursor put into the preferred column of its line, or at the end
    /// of the line where the line is too short for it. The preference itself
    /// is kept.
    pub open spec fn resolve_cursor_index(self) -> EditorView {
        EditorView {
            cursor: Cursor {
                grapheme_index: self.column_on(self.cursor.line_index as int),
                ..self.cursor
            },
            ..self
        }
    }

    /// One cluster to the right, or to the start of the next line from the
    /// end of a line. At the end of the document only the preferred column
    /// is given up.
    pub open spec fn move_right(self) -> EditorView {
        let at = self.cursor;
        if at.grapheme_index < self.line_length(at.line_index as int) {
            self.with_cursor(Cursor::at(at.line_index, (at.grapheme_index + 1) as usize))
        } else if at.line_index + 1 < self.lines.len() {
            self.with_cursor(Cursor::at((at.line_index + 1) as usize, 0))
        } else {
            self.collapse_preference()
        }
    }

    /// Whether the cursor has anywhere to go to its left.
    pub open spec fn can_move_left(self) -> bool {
        self.cursor.grapheme_index > 0 || self.cursor.line_index > 0
    }

    /// One cluster to the left, or to the end of the previous line from the
    /// start of a line. At the start of the document only the preferred
    /// column is given up.
    pub open spec fn move_left(self) -> EditorView {
        let at = self.cursor;
        if at.grapheme_index > 0 {
            self.with_cursor(Cursor::at(at.line_index, (at.grapheme_index - 1) as usize))
        } else if at.line_index > 0 {
            self.with_cursor(
                Cursor::at(
                    (at.line_index - 1) as usize,
                    self.line_length(at.line_index - 1) as usize,
                ),
            )
        } else {
            self.collapse_preference()
        }
    }

    /// One line up, into the preferred column as far as the line reaches.
    /// The preference itself is kept. On the first line nothing changes.
    pub open spec fn move_up(self) -> EditorView {
        let at = self.cursor;
        if at.line_index > 0 {
            self.with_cursor(
                Cursor {
                    line_index: (at.line_index - 1) as usize,
                    grapheme_index: self.column_on(at.line_index - 1),
                    preferred_grapheme_index: at.preferred_grapheme_index,
                },
            )
        } else {
            self
        }
    }

    /// One line down, into the preferred column as far as the line reaches.
    /// The preference itself is kept. On the last line nothing changes.
    pub open spec fn move_down(self) -> EditorView {
        let at = self.cursor;
        if at.line_index + 1 < self.lines.len() {
            self.with_cursor(
                Cursor {
                    line_index: (at.line_index + 1) as usize,
                    grapheme_index: self.column_on(at.line_index + 1),
                    preferred_grapheme_index: at.preferred_grapheme_index,
                },
            )
        } else {
            self
        }
    }

    /// To the start of the line.
    pub open spec fn move_to_line_start(self) -> EditorView {
        self.with_cursor(Cursor::at(self.cursor.line_index, 0))
    }

    /// To the end of the line.
    pub open spec fn move_to_line_end(self) -> EditorView {
        self.with_cursor(
            Cursor::at(
                self.cursor.line_index,
                self.line_length(self.cursor.line_index as int) as usize,
            ),
        )
    }

    /// The current line replaced by `line`, the document marked as changed,
    /// and the cursor resolved against the new line: it keeps its column
    /// unless the line now has fewer clusters than that.
    pub open spec fn with_current_line(self, line: Seq<char>) -> EditorView {
        let at = self.cursor;
        let column = if at.grapheme_index <= grapheme_count(line) {
            at.grapheme_index
        } else {
            grapheme_count(line) as usize
        };
        EditorView {
            lines: self.lines.update(at.line_index as int, line),
            current: false,
            ..self
        }.with_cursor(Cursor::at(at.line_index, column))
    }

    /// `ch` put into the current line at the cursor. The cursor stays where
    /// it is.
    pub open spec fn insert_grapheme(self, ch: char) -> EditorView {
        self.with_current_line(
            with_char_inserted(self.current_line(), self.cursor.grapheme_index as int, ch),
        )
    }

    /// The current line cut in two at the cursor. The second part becomes a
    /// line of its own right after the first, and the cursor goes to its
    /// start.
    pub open spec fn split_line_at_cursor(self) -> EditorView {
        let at = self.cursor;
        let line = self.current_line();
        let head = crate::graphemes::text_before(line, at.grapheme_index as int);
        let tail = crate::graphemes::text_from(line, at.grapheme_index as int);
        EditorView {
            lines: self.lines.update(at.line_index as int, head).insert(
                at.line_index + 1,
                tail,
            ),
            ..self
        }.with_cursor(Cursor::at((at.line_index + 1) as usize, 0))
    }

    /// The cluster at the cursor taken out of the line; at the end of a
    /// line, the next line drawn up onto it. At the end of the last line only
    /// the preferred column is given up.
    pub open spec fn delete_grapheme_at_cursor(self) -> EditorView {
        let at = self.cursor;
        let line = self.current_line();
        if at.grapheme_index < grapheme_count(line) {
            self.with_current_line(with_grapheme_removed(line, at.grapheme_index as int))
        } else if at.line_index + 1 < self.lines.len() {
            EditorView { lines: self.lines.remove(at.line_index + 1), ..self }.with_current_line(
                line + self.lines[at.line_index + 1],
            )
        } else {
            self.collapse_preference()
        }
    }

    /// The visible rectangle given a new extent, and scrolled to the cursor.
    pub open spec fn set_text_size(self, cols: usize, rows: usize) -> EditorView {
        EditorView {
            viewport: self.viewport.resized(cols, rows).clamped_to(self.cursor),
            ..self
        }
    }

    /// The viewport scrolled to the cursor.
    pub open spec fn clamp_display_to_cursor(self) -> EditorView {
        EditorView { viewport: self.viewport.clamped_to(self.cursor), ..self }
    }

    /// The viewport one line further down; the cursor stays.
    pub open spec fn move_display_down(self) -> EditorView {
        EditorView { viewport: self.viewport.scrolled_down(), ..self }
    }

    /// The viewport one line further up; the cursor stays.
    pub open spec fn move_display_up(self) -> EditorView {
        EditorView { viewport: self.viewport.scrolled_up(), ..self }
    }

    /// The document marked as saved.
    pub open spec fn mark_saved(self) -> EditorView {
        EditorView { current: true, ..self }
    }
}

/// Every operation that only moves the cursor or scrolls leaves the lines
/// as they were, and the cursor on one of them, at one of its grapheme
/// boundaries.
pub proof fn lemma_moves_keep_valid(state: EditorView)
    requires
        state.valid(),
    ensures
        state.move_right().valid() && state.move_right().lines == state.lines,
        state.move_left().valid() && state.move_left().lines == state.lines,
        state.move_up().valid() && state.move_up().lines == state.lines,
        state.move_down().valid() && state.move_down().lines == state.lines,
        state.move_to_line_start().valid() && state.move_to_line_start().lines == state.lines,
        state.move_to_line_end().valid() && state.move_to_line_end().lines == state.lines,
        state.collapse_preference().valid(),
        state.resolve_cursor_index().valid(),
        state.clamp_display_to_cursor().valid(),
        state.move_display_down().valid(),
        state.move_display_up().valid(),
        state.mark_saved().valid(),
{
}

/// Every edit leaves the line store non-empty and the cursor on one of its
/// lines, at one of that line's grapheme boundaries. An insertion keeps the
/// number of lines, a deletion takes one line away at most, and a split adds
/// one (and so asks for room for it).
pub proof fn lemma_edits_keep_valid(state: EditorView, ch: char)
    requires
        state.valid(),
    ensures
        state.insert_grapheme(ch).valid(),
        state.insert_grapheme(ch).lines.len() == state.lines.len(),
        state.delete_grapheme_at_cursor().valid(),
        state.delete_grapheme_at_cursor().lines.len() <= state.lines.len(),
        state.lines.len() < usize::MAX ==> state.split_line_at_cursor().valid(),
        state.split_line_at_cursor().lines.len() == state.lines.len() + 1,
{
}

impl EditorView {
    /// The preferred column is the column that the cursor is in.
    pub open spec fn preference_collapsed(self) -> bool {
        self.cursor.preferred_grapheme_index == self.cursor.grapheme_index
    }
}

/// After every step sideways and after every edit the preferred column is
/// the column that the cursor is in, at the ends of the document too. Only
/// the steps up and down keep a preference of their own.
pub proof fn lemma_preference_collapses(state: EditorView, ch: char)
    ensures
        state.move_right().preference_collapsed(),
        state.move_left().preference_collapsed(),
        state.move_to_line_start().preference_collapsed(),
        state.move_to_line_end().preference_collapsed(),
        state.insert_grapheme(ch).preference_collapsed(),
        state.split_line_at_cursor().preference_collapsed(),
        state.delete_grapheme_at_cursor().preference_collapsed(),
        state.move_up().cursor.preferred_grapheme_index == state.cursor.preferred_grapheme_index,
        state.move_down().cursor.preferred_grapheme_index
            == state.cursor.preferred_grapheme_index,
{
}

/// Scrolling to the cursor a second time changes nothing.
pub proof fn lemma_clamp_display_idempotent(state: EditorView)
    ensures
        state.clamp_display_to_cursor().clamp_display_to_cursor()
            == state.clamp_display_to_cursor(),
{
}

/// A document that is stored and opened again has the lines it had, as far
/// as its lines survive being joined and split: always with the terminator
/// of two characters, unless a line holds a line feed.
pub proof fn lemma_reopened_lines(state: EditorView, path: Seq<char>)
    requires
        survives_round_trip(state.lines, state.use_crlf),
    ensures
        EditorView::opened(path, join_lines(state.lines, terminator(state.use_crlf))).lines
            == state.lines,
{
    lemma_join_split_round_trip(state.lines, state.use_crlf);
}

/// Resizing the visible rectangle leaves the editor valid.
pub proof fn lemma_set_text_size_keeps_valid(state: EditorView, cols: usize, rows: usize)
    requires
        state.valid(),
    ensures
        state.set_text_size(cols, rows).valid(),
{
}

/// After an operation that moves the cursor, the cursor is on screen,
/// whenever the visible rectangle has at least one row and one column.
pub proof fn lemma_cursor_stays_visible(state: EditorView, cursor: Cursor)
    requires
        state.viewport.rows >= 1,
        state.viewport.cols >= 1,
    ensures
        state.with_cursor(cursor).viewport.shows(cursor),
        state.with_cursor(cursor).viewport.rows == state.viewport.rows,
        state.with_cursor(cursor).viewport.cols == state.viewport.cols,
{
}

} // verus!
