use termedit::cursor::Cursor;
use termedit::editor::event::{Event, KeyCode, KeyEvent, Outcome};
use termedit::editor::Editor;

fn cursor_at(line_index: usize, grapheme_index: usize) -> Cursor {
    Cursor { line_index, grapheme_index, preferred_grapheme_index: grapheme_index }
}

fn key(code: KeyCode) -> Event {
    Event::Key(KeyEvent { code, control: false })
}

fn control(code: KeyCode) -> Event {
    Event::Key(KeyEvent { code, control: true })
}

fn open(content: &str) -> Editor {
    Editor::new(String::from("notes.txt"), content)
}

fn texts(editor: &Editor) -> Vec<&str> {
    editor.lines().iter().map(|line| line.as_str()).collect()
}

#[test]
fn typed_characters_are_inserted_and_passed() {
    let mut editor = open("");
    assert_eq!(editor.process_event(key(KeyCode::Char('h'))), Outcome::Continue);
    assert_eq!(editor.process_event(key(KeyCode::Char('i'))), Outcome::Continue);
    assert_eq!(texts(&editor), vec!["hi"]);
    assert_eq!(editor.cursor(), cursor_at(0, 2));
    assert!(!editor.is_current());
}

#[test]
fn type_char_inserts_and_moves() {
    let mut editor = open("ac");
    editor.move_right();
    editor.type_char('b');
    assert_eq!(texts(&editor), vec!["abc"]);
    assert_eq!(editor.cursor(), cursor_at(0, 2));
}

#[test]
fn arrows_move_the_cursor() {
    let mut editor = open("ab\ncd");
    editor.process_event(key(KeyCode::Right));
    assert_eq!(editor.cursor(), cursor_at(0, 1));
    editor.process_event(key(KeyCode::Down));
    assert_eq!(editor.cursor(), cursor_at(1, 1));
    editor.process_event(key(KeyCode::Left));
    assert_eq!(editor.cursor(), cursor_at(1, 0));
    editor.process_event(key(KeyCode::Up));
    assert_eq!(editor.cursor(), cursor_at(0, 0));
}

#[test]
fn enter_splits_the_line() {
    let mut editor = open("ab");
    editor.process_event(key(KeyCode::Right));
    assert_eq!(editor.process_event(key(KeyCode::Enter)), Outcome::Continue);
    assert_eq!(texts(&editor), vec!["a", "b"]);
    assert_eq!(editor.cursor(), cursor_at(1, 0));
}

#[test]
fn backspace_deletes_to_the_left() {
    let mut editor = open("abc");
    editor.process_event(key(KeyCode::Right));
    editor.process_event(key(KeyCode::Right));
    editor.process_event(key(KeyCode::Backspace));
    assert_eq!(texts(&editor), vec!["ac"]);
    assert_eq!(editor.cursor(), cursor_at(0, 1));
}

#[test]
fn backspace_at_line_start_merges_with_the_previous_line() {
    let mut editor = open("a\nb");
    editor.process_event(key(KeyCode::Down));
    editor.process_event(control(KeyCode::Left));
    editor.process_event(key(KeyCode::Backspace));
    assert_eq!(texts(&editor), vec!["ab"]);
    assert_eq!(editor.cursor(), cursor_at(0, 1));
}

#[test]
fn backspace_at_document_start_deletes_nothing() {
    let mut editor = open("abc");
    editor.mark_saved();
    editor.process_event(key(KeyCode::Backspace));
    assert_eq!(texts(&editor), vec!["abc"]);
    assert_eq!(editor.cursor(), cursor_at(0, 0));
    assert!(editor.is_current());

    let mut editor = open("abc");
    editor.backspace();
    assert_eq!(texts(&editor), vec!["abc"]);
}

#[test]
fn tab_fills_up_to_the_next_tab_stop() {
    let mut editor = open("");
    editor.process_event(key(KeyCode::Tab));
    assert_eq!(texts(&editor), vec!["    "]);
    assert_eq!(editor.cursor(), cursor_at(0, 4));

    let mut editor = open("a");
    editor.process_event(key(KeyCode::Right));
    editor.process_event(key(KeyCode::Tab));
    assert_eq!(texts(&editor), vec!["a   "]);
    assert_eq!(editor.cursor(), cursor_at(0, 4));

    let mut editor = open("abcde");
    editor.move_to_line_end();
    editor.insert_tab();
    assert_eq!(texts(&editor), vec!["abcde   "]);
    assert_eq!(editor.cursor(), cursor_at(0, 8));
}

#[test]
fn tab_width_is_configurable() {
    let mut editor = open("ab");
    assert!(editor.set_num_spaces_per_tab(3));
    editor.process_event(key(KeyCode::Right));
    editor.process_event(key(KeyCode::Tab));
    assert_eq!(texts(&editor), vec!["a  b"]);
    assert_eq!(editor.cursor(), cursor_at(0, 3));
    editor.process_event(key(KeyCode::Tab));
    assert_eq!(texts(&editor), vec!["a     b"]);
    assert_eq!(editor.cursor(), cursor_at(0, 6));
}

#[test]
fn control_c_asks_to_exit() {
    let mut editor = open("abc");
    assert_eq!(editor.process_event(control(KeyCode::Char('c'))), Outcome::Exit);
    assert_eq!(texts(&editor), vec!["abc"]);
    assert_eq!(editor.cursor(), cursor_at(0, 0));
}

#[test]
fn control_s_asks_to_save() {
    let mut editor = open("abc");
    assert_eq!(editor.process_event(control(KeyCode::Char('s'))), Outcome::Save);
    assert_eq!(texts(&editor), vec!["abc"]);
    // The document counts as saved only once the caller says so.
    assert!(!editor.is_current());
    editor.mark_saved();
    assert!(editor.is_current());
}

#[test]
fn control_with_other_keys_changes_nothing() {
    let mut editor = open("abc");
    assert_eq!(editor.process_event(control(KeyCode::Char('x'))), Outcome::Continue);
    assert_eq!(editor.process_event(control(KeyCode::Enter)), Outcome::Continue);
    assert_eq!(editor.process_event(control(KeyCode::Tab)), Outcome::Continue);
    assert_eq!(editor.process_event(control(KeyCode::Backspace)), Outcome::Continue);
    assert_eq!(texts(&editor), vec!["abc"]);
    assert_eq!(editor.cursor(), cursor_at(0, 0));
}

#[test]
fn control_arrows_jump_and_scroll() {
    let mut editor = open("abc\nd\ne");
    editor.set_text_size((10, 2));
    editor.process_event(control(KeyCode::Right));
    assert_eq!(editor.cursor(), cursor_at(0, 3));
    editor.process_event(control(KeyCode::Left));
    assert_eq!(editor.cursor(), cursor_at(0, 0));
    editor.process_event(control(KeyCode::Down));
    assert_eq!(editor.viewport().top_line, 1);
    assert_eq!(editor.cursor(), cursor_at(0, 0));
    editor.process_event(control(KeyCode::Up));
    assert_eq!(editor.viewport().top_line, 0);
}

#[test]
fn other_events_change_nothing() {
    let mut editor = open("abc");
    editor.mark_saved();
    assert_eq!(editor.process_event(Event::Other), Outcome::Continue);
    assert_eq!(editor.process_event(key(KeyCode::Other)), Outcome::Continue);
    assert_eq!(texts(&editor), vec!["abc"]);
    assert!(editor.is_current());
}

#[test]
fn try_process_event_applies_the_keymap() {
    let mut editor = open("ab");
    assert_eq!(editor.try_process_event(key(KeyCode::Right)), Some(Outcome::Continue));
    assert_eq!(editor.cursor(), cursor_at(0, 1));
    assert_eq!(editor.try_process_event(control(KeyCode::Char('c'))), Some(Outcome::Exit));
    assert_eq!(editor.try_process_event(control(KeyCode::Char('s'))), Some(Outcome::Save));
}
