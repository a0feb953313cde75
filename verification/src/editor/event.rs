//! The keymap: what each input event does to the editor.

use crate::editor::model::{lemma_edits_keep_valid, lemma_moves_keep_valid, EditorView};
use crate::editor::Editor;
use vstd::prelude::*;

verus! {

/// The keys that the editor tells apart.
#[derive(Clone, Copy, Debug, PartialEq, Eq, Structural)]
pub enum KeyCode {
    Backspace,
    Enter,
    Left,
    Right,
    Up,
    Down,
    Tab,
    Char(char),
    /// Any other key.
    Other,
}

/// A key press, with or without the control key held down.
#[derive(Clone, Copy, Debug, PartialEq, Eq, Structural)]
pub struct KeyEvent {
    pub code: KeyCode,
    pub control: bool,
}

/// An input event.
#[derive(Clone, Copy, Debug, PartialEq, Eq, Structural)]
pub enum Event {
    Key(KeyEvent),
    /// Anything that is not a key press.
    Other,
}

/// What the caller is asked to do after an event.
#[derive(Clone, Copy, Debug, PartialEq, Eq, Structural)]
pub enum Outcome {
    /// Nothing: go on reading events.
    Continue,
    /// Write the document to its path, and call `mark_saved` if that went
    /// well.
    Save,
    /// Stop.
    Exit,
}

impl Event {
    /// What the caller is asked to do after this event: control with `s`
    /// saves, control with `c` ends the session.
    pub open spec fn outcome(self) -> Outcome {
        match self {
            Event::Key(KeyEvent { code: KeyCode::Char('c'), control: true }) => Outcome::Exit,
            Event::Key(KeyEvent { code: KeyCode::Char('s'), control: true }) => Outcome::Save,
            _ => Outcome::Continue,
        }
    }
}

impl EditorView {
    /// `ch` typed: inserted at the cursor, and the cursor moved past it.
    pub open spec fn type_char(self, ch: char) -> EditorView {
        self.insert_grapheme(ch).move_right()
    }

    /// `count` spaces typed one after the other.
    pub open spec fn type_spaces(self, count: nat) -> EditorView
        decreases count,
    {
        if count == 0 {
            self
        } else {
            self.type_char(' ').type_spaces((count - 1) as nat)
        }
    }

    /// The number of columns from the cursor to the next tab stop.
    pub open spec fn columns_to_tab_stop(self) -> nat {
        (self.tab_width - self.cursor.grapheme_index % (self.tab_width as usize)) as nat
    }

    /// Backspace: one step to the left and, if there was one, a forward
    /// delete from there.
    pub open spec fn backspace(self) -> EditorView {
        if self.can_move_left() {
            self.move_left().delete_grapheme_at_cursor()
        } else {
            self.move_left()
        }
    }

    /// The state after `event`.
    pub open spec fn after_event(self, event: Event) -> EditorView {
        match event {
            Event::Key(key) => if key.control {
                match key.code {
                    KeyCode::Right => self.move_to_line_end(),
                    KeyCode::Left => self.move_to_line_start(),
                    KeyCode::Down => self.move_display_down(),
                    KeyCode::Up => self.move_display_up(),
                    _ => self,
                }
            } else {
                match key.code {
                    KeyCode::Tab => self.type_spaces(self.columns_to_tab_stop()),
                    KeyCode::Right => self.move_right(),
                    KeyCode::Left => self.move_left(),
                    KeyCode::Up => self.move_up(),
                    KeyCode::Down => self.move_down(),
                    KeyCode::Enter => self.split_line_at_cursor(),
                    KeyCode::Backspace => self.backspace(),
                    KeyCode::Char(ch) => self.type_char(ch),
                    KeyCode::Other => self,
                }
            },
            Event::Other => self,
        }
    }
}

impl EditorView {
    /// The state after each of `events` in turn.
    pub open spec fn after_events(self, events: Seq<Event>) -> EditorView
        decreases events.len(),
    {
        if events.len() == 0 {
            self
        } else {
            self.after_event(events.first()).after_events(events.drop_first())
        }
    }
}

/// Typing a character leaves the editor valid and the number of lines as
/// it was.
pub proof fn lemma_type_char_keeps_valid(state: EditorView, ch: char)
    requires
        state.valid(),
    ensures
        state.type_char(ch).valid(),
        state.type_char(ch).lines.len() == state.lines.len(),
{
    lemma_edits_keep_valid(state, ch);
    lemma_moves_keep_valid(state.insert_grapheme(ch));
}

/// Typing any number of spaces leaves the editor valid and the number of
/// lines as it was.
pub proof fn lemma_type_spaces_keeps_valid(state: EditorView, count: nat)
    requires
        state.valid(),
    ensures
        state.type_spaces(count).valid(),
        state.type_spaces(count).lines.len() == state.lines.len(),
    decreases count,
{
    if count > 0 {
        lemma_type_char_keeps_valid(state, ' ');
        lemma_type_spaces_keeps_valid(state.type_char(' '), (count - 1) as nat);
    }
}

/// A backspace leaves the editor valid and adds no line.
pub proof fn lemma_backspace_keeps_valid(state: EditorView)
    requires
        state.valid(),
    ensures
        state.backspace().valid(),
        state.backspace().lines.len() <= state.lines.len(),
{
    lemma_moves_keep_valid(state);
    lemma_edits_keep_valid(state.move_left(), ' ');
}

/// An event leaves the editor valid, whatever the event, and adds one line
/// at most.
pub proof fn lemma_event_keeps_valid(state: EditorView, event: Event)
    requires
        state.valid(),
        state.lines.len() < usize::MAX,
    ensures
        state.after_event(event).valid(),
        state.after_event(event).lines.len() <= state.lines.len() + 1,
{
    lemma_moves_keep_valid(state);
    match event {
        Event::Key(KeyEvent { code, control: false }) => match code {
            KeyCode::Tab => lemma_type_spaces_keeps_valid(state, state.columns_to_tab_stop()),
            KeyCode::Enter => lemma_edits_keep_valid(state, ' '),
            KeyCode::Backspace => lemma_backspace_keeps_valid(state),
            KeyCode::Char(ch) => lemma_type_char_keeps_valid(state, ch),
            _ => {},
        },
        _ => {},
    }
}

/// After any sequence of events the line store is not empty and the cursor
/// stands on one of its lines, at one of that line's grapheme boundaries.
/// (Each event may add a line, so the sequence asks for room for as many.)
pub proof fn lemma_events_keep_valid(state: EditorView, events: Seq<Event>)
    requires
        state.valid(),
        state.lines.len() + events.len() <= usize::MAX,
    ensures
        state.after_events(events).valid(),
        state.after_events(events).cursor_in_bounds(),
    decreases events.len(),
{
    if events.len() > 0 {
        lemma_event_keeps_valid(state, events.first());
        lemma_events_keep_valid(state.after_event(events.first()), events.drop_first());
    }
}

impl Editor {
    /// Types `ch`: inserts it at the cursor and moves past it.
    pub fn type_char(&mut self, ch: char)
        requires
            old(self)@.valid(),
        ensures
            final(self)@ == old(self)@.type_char(ch),
            final(self)@.valid(),
    {
        self.insert_grapheme(ch);
        self.move_right();
    }

    /// Fills the line with spaces from the cursor up to the next tab stop.
    pub fn insert_tab(&mut self)
        requires
            old(self)@.valid(),
        ensures
            final(self)@ == old(self)@.type_spaces(old(self)@.columns_to_tab_stop()),
            final(self)@.valid(),
    {
        let width = self.num_spaces_per_tab as usize;
        let count = width - self.cursor.grapheme_index % width;
        let mut typed: usize = 0;
        while typed < count
            invariant
                typed <= count,
                self@.valid(),
                self@.type_spaces((count - typed) as nat) == old(self)@.type_spaces(count as nat),
            decreases count - typed,
        {
            self.type_char(' ');
            typed = typed + 1;
        }
    }

    /// Deletes backwards: steps to the left and, if there was a step to
    /// take, deletes forward from there.
    pub fn backspace(&mut self)
        requires
            old(self)@.valid(),
        ensures
            final(self)@ == old(self)@.backspace(),
            final(self)@.valid(),
    {
        if self.move_left() {
            self.delete_grapheme_at_cursor();
        }
    }

    /// Applies the keymap to `event` and tells the caller what is left for
    /// it to do.
    pub fn process_event(&mut self, event: Event) -> (outcome: Outcome)
        requires
            old(self)@.valid(),
        ensures
            final(self)@ == old(self)@.after_event(event),
            outcome == event.outcome(),
            final(self)@.valid(),
    {
        match self.mode {
            crate::editor::EditorMode::Insert => match event {
                Event::Key(key) => {
                    if key.control {
                        match key.code {
                            KeyCode::Char(ch) => {
                                if ch == 'c' {
                                    return Outcome::Exit;
                                }
                                if ch == 's' {
                                    return Outcome::Save;
                                }
                            },
                            KeyCode::Right => {
                                self.move_to_line_end();
                            },
                            KeyCode::Left => {
                                self.move_to_line_start();
                            },
                            KeyCode::Down => {
                                self.move_display_down();
                            },
                            KeyCode::Up => {
                                self.move_display_up();
                            },
                            _ => {},
                        }
                    } else {
                        match key.code {
                            KeyCode::Tab => {
                                self.insert_tab();
                            },
                            KeyCode::Right => {
                                self.move_right();
                            },
                            KeyCode::Left => {
                                self.move_left();
                            },
                            KeyCode::Up => {
                                self.move_up();
                            },
                            KeyCode::Down => {
                                self.move_down();
                            },
                            KeyCode::Enter => {
                                self.split_line_at_cursor();
                            },
                            KeyCode::Backspace => {
                                self.backspace();
                            },
                            KeyCode::Char(ch) => {
                                self.type_char(ch);
                            },
                            KeyCode::Other => {},
                        }
                    }
                },
                Event::Other => {},
            },
        }
        Outcome::Continue
    }

    /// Applies the keymap to `event` if the editor is valid, and leaves it
    /// alone if it is not. For callers that cannot show the invariant.
    pub fn try_process_event(&mut self, event: Event) -> (outcome: Option<Outcome>)
        ensures
            old(self)@.valid() ==> outcome == Some(event.outcome()) && final(self)@ == old(
                self,
            )@.after_event(event) && final(self)@.valid(),
            !old(self)@.valid() ==> outcome is None && final(self)@ == old(self)@,
    {
        if self.is_valid() {
            Some(self.process_event(event))
        } else {
            None
        }
    }
}

} // verus!
