//! The editor: the line store, the cursor and the viewport, held together
//! under one invariant.

pub mod draw;
pub mod editing;
pub mod event;
pub mod model;
pub mod navigation;

use crate::cursor::Cursor;
use crate::editor::model::EditorView;
use crate::graphemes::{char_offset, count_graphemes, grapheme_offset, resolved_index, texts_of};
use crate::lines::{join_into_text, join_lines, split_into_lines, terminator};
use crate::viewport::Viewport;
use vstd::prelude::*;

verus! {

/// How key presses are read. There is one mode: what is typed is inserted.
#[derive(Debug)]
pub enum EditorMode {
    Insert,
}

/// An open document with its cursor and its viewport.
///
/// The line store is never empty, and the cursor always stands on a line of
/// it, at one of that line's grapheme boundaries: `self@.valid()`.
#[derive(Debug)]
pub struct Editor {
    mode: EditorMode,
    current: bool,
    path: String,
    pub header_msg: String,
    pub extension: String,
    pub theme_name: String,
    lines: Vec<String>,
    viewport: Viewport,
    cursor: Cursor,
    show_cursor: bool,
    use_crlf: bool,
    num_spaces_per_tab: u8,
}

impl View for Editor {
    type V = EditorView;

    closed spec fn view(&self) -> EditorView {
        EditorView {
            lines: texts_of(self.lines@),
            cursor: self.cursor,
            viewport: self.viewport,
            current: self.current,
            path: self.path@,
            header_msg: self.header_msg@,
            extension: self.extension@,
            theme_name: self.theme_name@,
            show_cursor: self.show_cursor,
            use_crlf: self.use_crlf,
            tab_width: self.num_spaces_per_tab,
        }
    }
}

impl Default for Editor {
    /// An empty document by the name of `Untitled`.
    fn default() -> (editor: Editor)
        ensures
            editor@ == EditorView::opened("Untitled"@, Seq::empty()),
            editor@.valid(),
    {
        Editor::new("Untitled".to_owned(), String::new().as_str())
    }
}

impl Editor {
    /// Opens the document stored as `content` under the name `path`. An
    /// empty content is one empty line. The cursor stands at the start,
    /// nothing is on screen yet, and the document counts as unsaved.
    pub fn new(path: String, content: &str) -> (editor: Editor)
        ensures
            editor@ == EditorView::opened(path@, content@),
            editor@.valid(),
    {
        let lines = split_into_lines(content);
        Editor {
            mode: EditorMode::Insert,
            current: false,
            path,
            header_msg: String::new(),
            extension: String::new(),
            theme_name: String::new(),
            lines,
            viewport: Viewport::new(0, 0),
            cursor: Cursor::origin(),
            show_cursor: true,
            use_crlf: true,
            num_spaces_per_tab: 4,
        }
    }

    /// Whether the invariant holds: the store has a line, the cursor stands
    /// on one of its lines at one of that line's grapheme boundaries, and
    /// the tab stops are a column apart or more. It holds of every editor
    /// that `new` made and that only the operations of this type changed.
    pub fn is_valid(&self) -> (valid: bool)
        ensures
            valid == self@.valid(),
    {
        let count = self.lines.len();
        count >= 1 && self.cursor.line_index < count && self.cursor.grapheme_index
            <= count_graphemes(self.lines[self.cursor.line_index].as_str())
            && self.num_spaces_per_tab >= 1
    }

    /// Where the cursor is.
    pub fn cursor(&self) -> (cursor: Cursor)
        ensures
            cursor == self@.cursor,
    {
        self.cursor
    }

    /// What is on screen.
    pub fn viewport(&self) -> (viewport: Viewport)
        ensures
            viewport == self@.viewport,
    {
        self.viewport
    }

    /// Whether the lines are as they were last saved.
    pub fn is_current(&self) -> (current: bool)
        ensures
            current == self@.current,
    {
        self.current
    }

    /// The name under which the document is stored.
    pub fn path(&self) -> (path: &str)
        ensures
            path@ == self@.path,
    {
        self.path.as_str()
    }

    /// The lines of the document.
    pub fn lines(&self) -> (lines: &Vec<String>)
        ensures
            texts_of(lines@) == self@.lines,
    {
        &self.lines
    }

    /// Line `index`, if there is one.
    pub fn line_at_index(&self, index: usize) -> (line: Option<&String>)
        ensures
            index < self@.lines.len() ==> line is Some && line->0@ == self@.lines[index as int],
            index >= self@.lines.len() ==> line is None,
    {
        if index < self.lines.len() {
            Some(&self.lines[index])
        } else {
            None
        }
    }

    /// The line that the cursor is on.
    pub fn cursor_current_line(&self) -> (line: &String)
        requires
            self@.valid(),
        ensures
            line@ == self@.current_line(),
    {
        &self.lines[self.cursor.line_index]
    }

    /// The number of `char`s that stand before the cluster number
    /// `grapheme_index` of line `line_index`, or the length of the line
    /// where it has fewer clusters. `None` where there is no such line.
    pub fn char_index(&self, line_index: usize, grapheme_index: usize) -> (index: Option<usize>)
        ensures
            line_index >= self@.lines.len() ==> index is None,
            line_index < self@.lines.len() ==> index is Some && index->0 == grapheme_offset(
                self@.lines[line_index as int],
                resolved_index(self@.lines[line_index as int], grapheme_index as int),
            ) && index->0 <= self@.lines[line_index as int].len(),
    {
        match self.line_at_index(line_index) {
            Some(line) => Some(char_offset(line.as_str(), grapheme_index)),
            None => None,
        }
    }

    /// The number of `char`s of the current line that stand before the
    /// cursor.
    pub fn cursor_char_index(&self) -> (index: usize)
        requires
            self@.valid(),
        ensures
            index == grapheme_offset(self@.current_line(), self@.cursor.grapheme_index as int),
    {
        char_offset(self.lines[self.cursor.line_index].as_str(), self.cursor.grapheme_index)
    }

    /// The number of `char`s of line `line_index` that lie to the left of
    /// the visible rectangle.
    pub fn display_rightmost_char_index(&self, line_index: usize) -> (index: usize)
        requires
            line_index < self@.lines.len(),
        ensures
            index == grapheme_offset(
                self@.lines[line_index as int],
                resolved_index(
                    self@.lines[line_index as int],
                    self@.viewport.left_grapheme as int,
                ),
            ),
    {
        char_offset(self.lines[line_index].as_str(), self.viewport.left_grapheme)
    }

    /// The text to store: the lines joined by the line terminator.
    pub fn content(&self) -> (content: String)
        ensures
            content@ == join_lines(self@.lines, terminator(self@.use_crlf)),
    {
        join_into_text(&self.lines, self.use_crlf)
    }

    /// The text to hand to a categorizer: the lines with a line feed between
    /// each two of them, whatever the terminator of the stored text is.
    pub fn text(&self) -> (text: String)
        ensures
            text@ == join_lines(self@.lines, terminator(false)),
    {
        join_into_text(&self.lines, false)
    }

    /// Records that the document has been stored as it is.
    pub fn mark_saved(&mut self)
        ensures
            final(self)@ == old(self)@.mark_saved(),
    {
        self.current = true;
    }

    /// The title: the path, behind an asterisk while there are unsaved
    /// changes.
    pub fn title(&self) -> (title: String)
        ensures
            title@ == self@.title(),
    {
        let mut title = String::new();
        if !self.current {
            title.push('*');
        }
        title.append(self.path.as_str());
        title
    }

    /// The status message of the title bar.
    pub fn header_msg(&self) -> (msg: &str)
        ensures
            msg@ == self@.header_msg,
    {
        self.header_msg.as_str()
    }

    /// Sets the status message of the title bar.
    pub fn set_header_msg(&mut self, msg: String)
        ensures
            final(self)@ == (EditorView { header_msg: msg@, ..old(self)@ }),
    {
        self.header_msg = msg;
    }

    /// The extension of the file's name.
    pub fn extension(&self) -> (extension: &str)
        ensures
            extension@ == self@.extension,
    {
        self.extension.as_str()
    }

    /// Sets the extension of the file's name.
    pub fn set_extension(&mut self, extension: String)
        ensures
            final(self)@ == (EditorView { extension: extension@, ..old(self)@ }),
    {
        self.extension = extension;
    }

    /// The name of the colour theme.
    pub fn theme_name(&self) -> (name: &str)
        ensures
            name@ == self@.theme_name,
    {
        self.theme_name.as_str()
    }

    /// Sets the name of the colour theme.
    pub fn set_theme_name(&mut self, name: String)
        ensures
            final(self)@ == (EditorView { theme_name: name@, ..old(self)@ }),
    {
        self.theme_name = name;
    }

    /// Whether the cursor is drawn.
    pub fn show_cursor(&self) -> (shown: bool)
        ensures
            shown == self@.show_cursor,
    {
        self.show_cursor
    }

    /// Draws the cursor from now on, or hides it.
    pub fn set_show_cursor(&mut self, shown: bool)
        ensures
            final(self)@ == (EditorView { show_cursor: shown, ..old(self)@ }),
    {
        self.show_cursor = shown;
    }

    /// Whether lines are stored with a carriage return before the line feed.
    pub fn use_crlf(&self) -> (use_crlf: bool)
        ensures
            use_crlf == self@.use_crlf,
    {
        self.use_crlf
    }

    /// Chooses the line terminator for the stored text.
    pub fn set_use_crlf(&mut self, use_crlf: bool)
        ensures
            final(self)@ == (EditorView { use_crlf, ..old(self)@ }),
    {
        self.use_crlf = use_crlf;
    }

    /// The distance between tab stops, in columns.
    pub fn num_spaces_per_tab(&self) -> (width: u8)
        ensures
            width == self@.tab_width,
    {
        self.num_spaces_per_tab
    }

    /// Sets the distance between tab stops. A distance of zero is refused:
    /// the editor is then left as it is, and the answer is `false`.
    pub fn set_num_spaces_per_tab(&mut self, width: u8) -> (accepted: bool)
        ensures
            accepted == (width >= 1),
            final(self)@ == if accepted {
                EditorView { tab_width: width, ..old(self)@ }
            } else {
                old(self)@
            },
    {
        if width >= 1 {
            self.num_spaces_per_tab = width;
            true
        } else {
            false
        }
    }
}

} // verus!
