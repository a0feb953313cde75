//! Changing the text at the cursor.

use crate::cursor::Cursor;
use crate::editor::Editor;
use crate::graphemes::{
    count_graphemes,
    insert_at_grapheme,
    remove_grapheme,
    split_at_grapheme,
    texts_of,
};
use vstd::prelude::*;

verus! {

impl Editor {
    fn replace_current_line(&mut self, line: String)
        requires
            old(self)@.valid(),
        ensures
            final(self)@ == old(self)@.with_current_line(line@),
            final(self)@.valid(),
    {
        let at = self.cursor;
        let length = count_graphemes(line.as_str());
        let column = if at.grapheme_index <= length {
            at.grapheme_index
        } else {
            length
        };
        proof {
            assert(texts_of(self.lines@.update(at.line_index as int, line)) =~= texts_of(
                self.lines@,
            ).update(at.line_index as int, line@));
        }
        self.lines[at.line_index] = line;
        self.current = false;
        self.place_cursor(
            Cursor {
                line_index: at.line_index,
                grapheme_index: column,
                preferred_grapheme_index: column,
            },
        );
    }

    /// Puts `ch` into the current line at the cursor. The cursor is not
    /// moved past it: a caller that types issues `move_right` afterwards.
    pub fn insert_grapheme(&mut self, ch: char)
        requires
            old(self)@.valid(),
        ensures
            final(self)@ == old(self)@.insert_grapheme(ch),
            final(self)@.valid(),
    {
        let at = self.cursor;
        let line = insert_at_grapheme(self.lines[at.line_index].as_str(), at.grapheme_index, ch);
        self.replace_current_line(line);
    }

    /// Cuts the current line in two at the cursor and puts the cursor at the
    /// start of the second part.
    pub fn split_line_at_cursor(&mut self)
        requires
            old(self)@.valid(),
        ensures
            final(self)@ == old(self)@.split_line_at_cursor(),
            final(self)@.valid(),
    {
        let at = self.cursor;
        let count = self.line_count();
        assert(at.line_index < count);
        let (head, tail) = split_at_grapheme(
            self.lines[at.line_index].as_str(),
            at.grapheme_index,
        );
        proof {
            assert(texts_of(
                self.lines@.update(at.line_index as int, head).insert(at.line_index + 1, tail),
            ) =~= texts_of(self.lines@).update(at.line_index as int, head@).insert(
                at.line_index + 1,
                tail@,
            ));
        }
        self.lines[at.line_index] = head;
        self.lines.insert(at.line_index + 1, tail);
        assert(self.lines@.len() == self.lines.len());
        self.place_cursor(
            Cursor {
                line_index: at.line_index + 1,
                grapheme_index: 0,
                preferred_grapheme_index: 0,
            },
        );
    }

    /// Deletes forward: takes out the cluster at the cursor, or at the end of
    /// a line draws the next line up onto it.
    pub fn delete_grapheme_at_cursor(&mut self)
        requires
            old(self)@.valid(),
        ensures
            final(self)@ == old(self)@.delete_grapheme_at_cursor(),
            final(self)@.valid(),
    {
        let at = self.cursor;
        if at.grapheme_index < self.length_of_line(at.line_index) {
            let line = remove_grapheme(self.lines[at.line_index].as_str(), at.grapheme_index);
            self.replace_current_line(line);
        } else if at.line_index < self.line_count() - 1 {
            proof {
                assert(texts_of(self.lines@.remove(at.line_index + 1)) =~= texts_of(
                    self.lines@,
                ).remove(at.line_index + 1));
            }
            let next = self.lines.remove(at.line_index + 1);
            let mut line = self.lines[at.line_index].clone();
            line.append(next.as_str());
            self.replace_current_line(line);
        } else {
            self.collapse_preference();
        }
    }
}

} // verus!
