//! Moving the cursor, and scrolling.

use crate::cursor::Cursor;
use crate::editor::Editor;
use crate::graphemes::count_graphemes;
use vstd::prelude::*;

verus! {

impl Editor {
    pub(crate) fn place_cursor(&mut self, cursor: Cursor)
        ensures
            final(self)@ == old(self)@.with_cursor(cursor),
    {
        self.cursor = cursor;
        self.viewport = self.viewport.clamp_to(cursor);
    }

    /// The number of lines.
    pub fn line_count(&self) -> (count: usize)
        ensures
            count == self@.lines.len(),
    {
        self.lines.len()
    }

    /// The number of grapheme clusters of line `index`, if there is such a
    /// line.
    pub fn line_length(&self, index: usize) -> (length: Option<usize>)
        ensures
            index < self@.lines.len() ==> length is Some && length->0 == self@.line_length(
                index as int,
            ) && length->0 <= self@.lines[index as int].len(),
            index >= self@.lines.len() ==> length is None,
    {
        if index < self.lines.len() {
            Some(self.length_of_line(index))
        } else {
            None
        }
    }

    pub(crate) fn length_of_line(&self, index: usize) -> (length: usize)
        requires
            index < self@.lines.len(),
        ensures
            length == self@.line_length(index as int),
            length <= self@.lines[index as int].len(),
    {
        count_graphemes(self.lines[index].as_str())
    }

    /// Gives up the preferred column for the one the cursor is in.
    pub fn collapse_preference(&mut self)
        ensures
            final(self)@ == old(self)@.collapse_preference(),
    {
        self.cursor.preferred_grapheme_index = self.cursor.grapheme_index;
    }

    /// Puts the cursor into the preferred column of its line, or at the end
    /// of the line where the line is too short for it.
    pub fn resolve_cursor_index(&mut self)
        requires
            old(self)@.valid(),
        ensures
            final(self)@ == old(self)@.resolve_cursor_index(),
            final(self)@.valid(),
    {
        self.cursor.grapheme_index = self.column_on(self.cursor.line_index);
    }

    /// Moves one cluster to the right, and from the end of a line to the
    /// start of the next. At the end of the document the cursor stays, and
    /// gives up its preferred column like after any other step sideways.
    pub fn move_right(&mut self)
        requires
            old(self)@.valid(),
        ensures
            final(self)@ == old(self)@.move_right(),
            final(self)@.valid(),
    {
        let at = self.cursor;
        if at.grapheme_index < self.length_of_line(at.line_index) {
            self.place_cursor(
                Cursor {
                    line_index: at.line_index,
                    grapheme_index: at.grapheme_index + 1,
                    preferred_grapheme_index: at.grapheme_index + 1,
                },
            );
        } else if at.line_index < self.line_count() - 1 {
            self.place_cursor(
                Cursor {
                    line_index: at.line_index + 1,
                    grapheme_index: 0,
                    preferred_grapheme_index: 0,
                },
            );
        } else {
            self.collapse_preference();
        }
    }

    /// Moves one cluster to the left, and from the start of a line to the
    /// end of the previous one. Tells whether there was anywhere to go.
    pub fn move_left(&mut self) -> (moved: bool)
        requires
            old(self)@.valid(),
        ensures
            final(self)@ == old(self)@.move_left(),
            moved == old(self)@.can_move_left(),
            final(self)@.valid(),
    {
        let at = self.cursor;
        if at.grapheme_index > 0 {
            self.place_cursor(
                Cursor {
                    line_index: at.line_index,
                    grapheme_index: at.grapheme_index - 1,
                    preferred_grapheme_index: at.grapheme_index - 1,
                },
            );
            true
        } else if at.line_index > 0 {
            let end = self.length_of_line(at.line_index - 1);
            self.place_cursor(
                Cursor {
                    line_index: at.line_index - 1,
                    grapheme_index: end,
                    preferred_grapheme_index: end,
                },
            );
            true
        } else {
            self.collapse_preference();
            false
        }
    }

    fn column_on(&self, index: usize) -> (column: usize)
        requires
            index < self@.lines.len(),
        ensures
            column == self@.column_on(index as int),
    {
        let length = self.length_of_line(index);
        if self.cursor.preferred_grapheme_index <= length {
            self.cursor.preferred_grapheme_index
        } else {
            length
        }
    }

    /// Moves one line up, into the preferred column or to the end of a
    /// shorter line.
    pub fn move_up(&mut self)
        requires
            old(self)@.valid(),
        ensures
            final(self)@ == old(self)@.move_up(),
            final(self)@.valid(),
    {
        let at = self.cursor;
        if at.line_index > 0 {
            let column = self.column_on(at.line_index - 1);
            self.place_cursor(
                Cursor {
                    line_index: at.line_index - 1,
                    grapheme_index: column,
                    preferred_grapheme_index: at.preferred_grapheme_index,
                },
            );
        }
    }

    /// Moves one line down, into the preferred column or to the end of a
    /// shorter line.
    pub fn move_down(&mut self)
        requires
            old(self)@.valid(),
        ensures
            final(self)@ == old(self)@.move_down(),
            final(self)@.valid(),
    {
        let at = self.cursor;
        if at.line_index < self.line_count() - 1 {
            let column = self.column_on(at.line_index + 1);
            self.place_cursor(
                Cursor {
                    line_index: at.line_index + 1,
                    grapheme_index: column,
                    preferred_grapheme_index: at.preferred_grapheme_index,
                },
            );
        }
    }

    /// Moves to the start of the line.
    pub fn move_to_line_start(&mut self)
        requires
            old(self)@.valid(),
        ensures
            final(self)@ == old(self)@.move_to_line_start(),
            final(self)@.valid(),
    {
        let line_index = self.cursor.line_index;
        self.place_cursor(Cursor { line_index, grapheme_index: 0, preferred_grapheme_index: 0 });
    }

    /// Moves to the end of the line.
    pub fn move_to_line_end(&mut self)
        requires
            old(self)@.valid(),
        ensures
            final(self)@ == old(self)@.move_to_line_end(),
            final(self)@.valid(),
    {
        let line_index = self.cursor.line_index;
        let end = self.length_of_line(line_index);
        self.place_cursor(
            Cursor { line_index, grapheme_index: end, preferred_grapheme_index: end },
        );
    }

    /// Takes a new extent for the visible rectangle, `(columns, rows)`, and
    /// scrolls to the cursor.
    pub fn set_text_size(&mut self, size: (usize, usize))
        ensures
            final(self)@ == old(self)@.set_text_size(size.0, size.1),
            size.0 >= 1 && size.1 >= 1 ==> final(self)@.viewport.shows(final(self)@.cursor),
    {
        self.viewport.cols = size.0;
        self.viewport.rows = size.1;
        self.viewport = self.viewport.clamp_to(self.cursor);
    }

    /// Scrolls just far enough to show the cursor.
    pub fn clamp_display_to_cursor(&mut self)
        ensures
            final(self)@ == old(self)@.clamp_display_to_cursor(),
            final(self)@.viewport.rows >= 1 && final(self)@.viewport.cols >= 1
                ==> final(self)@.viewport.shows(final(self)@.cursor),
    {
        self.viewport = self.viewport.clamp_to(self.cursor);
    }

    /// Scrolls one line down without moving the cursor.
    pub fn move_display_down(&mut self)
        ensures
            final(self)@ == old(self)@.move_display_down(),
    {
        if self.viewport.top_line < usize::MAX {
            self.viewport.top_line = self.viewport.top_line + 1;
        }
    }

    /// Scrolls one line up without moving the cursor.
    pub fn move_display_up(&mut self)
        ensures
            final(self)@ == old(self)@.move_display_up(),
    {
        if self.viewport.top_line > 0 {
            self.viewport.top_line = self.viewport.top_line - 1;
        }
    }
}

} // verus!
