use termedit::cursor::Cursor;
use termedit::editor::draw::DrawCommand;
use termedit::editor::Editor;
use termedit::viewport::Viewport;

fn cursor_at(line_index: usize, grapheme_index: usize) -> Cursor {
    Cursor { line_index, grapheme_index, preferred_grapheme_index: grapheme_index }
}

fn open(content: &str) -> Editor {
    Editor::new(String::from("notes.txt"), content)
}

fn texts(editor: &Editor) -> Vec<&str> {
    editor.lines().iter().map(|line| line.as_str()).collect()
}

fn go_to(editor: &mut Editor, line_index: usize, grapheme_index: usize) {
    while editor.cursor().line_index > 0 {
        editor.move_up();
    }
    for _ in 0..line_index {
        editor.move_down();
    }
    editor.move_to_line_start();
    for _ in 0..grapheme_index {
        editor.move_right();
    }
    assert_eq!(editor.cursor(), cursor_at(line_index, grapheme_index));
}

#[test]
fn new_editor_of_empty_content_has_one_empty_line() {
    let editor = open("");
    assert_eq!(texts(&editor), vec![""]);
    assert_eq!(editor.line_count(), 1);
    assert_eq!(editor.cursor(), cursor_at(0, 0));
    assert_eq!(editor.viewport(), Viewport { top_line: 0, left_grapheme: 0, rows: 0, cols: 0 });
    assert!(!editor.is_current());
    assert!(editor.show_cursor());
    assert!(editor.use_crlf());
    assert_eq!(editor.num_spaces_per_tab(), 4);
    assert_eq!(editor.path(), "notes.txt");
    assert_eq!(editor.header_msg, "");
}

#[test]
fn new_editor_splits_the_content_into_lines() {
    let editor = open("one\r\ntwo\nthree\n");
    assert_eq!(texts(&editor), vec!["one", "two", "three", ""]);
    assert_eq!(editor.line_length(0), Some(3));
    assert_eq!(editor.line_length(2), Some(5));
}

#[test]
fn default_editor_is_an_untitled_empty_document() {
    let editor = Editor::default();
    assert_eq!(editor.path(), "Untitled");
    assert_eq!(texts(&editor), vec![""]);
    assert_eq!(editor.cursor(), cursor_at(0, 0));
}

#[test]
fn move_right_steps_over_whole_clusters() {
    let mut editor = open("e\u{301}🇷🇺x");
    editor.move_right();
    assert_eq!(editor.cursor(), cursor_at(0, 1));
    assert_eq!(editor.cursor_char_index(), 2);
    editor.move_right();
    assert_eq!(editor.cursor(), cursor_at(0, 2));
    assert_eq!(editor.cursor_char_index(), 4);
    editor.move_right();
    assert_eq!(editor.cursor(), cursor_at(0, 3));
    editor.move_right();
    assert_eq!(editor.cursor(), cursor_at(0, 3));
}

#[test]
fn move_right_at_end_of_document_gives_up_the_preferred_column() {
    let mut editor = open("abc");
    go_to(&mut editor, 0, 3);
    editor.move_right();
    assert_eq!(editor.cursor(), cursor_at(0, 3));

    let mut editor = open("abc\n");
    go_to(&mut editor, 0, 3);
    editor.move_down();
    assert_eq!(
        editor.cursor(),
        Cursor { line_index: 1, grapheme_index: 0, preferred_grapheme_index: 3 }
    );
    editor.move_right();
    assert_eq!(editor.cursor(), cursor_at(1, 0));
    assert_eq!(texts(&editor), vec!["abc", ""]);
}

#[test]
fn move_left_goes_to_the_end_of_the_previous_line() {
    let mut editor = open("abc\nde");
    go_to(&mut editor, 1, 0);
    assert!(editor.move_left());
    assert_eq!(editor.cursor(), cursor_at(0, 3));
    assert!(editor.move_left());
    assert_eq!(editor.cursor(), cursor_at(0, 2));
}

#[test]
fn move_left_at_start_gives_up_the_preferred_column() {
    let mut editor = open("\nabc");
    go_to(&mut editor, 1, 3);
    editor.move_up();
    assert_eq!(
        editor.cursor(),
        Cursor { line_index: 0, grapheme_index: 0, preferred_grapheme_index: 3 }
    );
    assert!(!editor.move_left());
    assert_eq!(editor.cursor(), cursor_at(0, 0));
}

#[test]
fn vertical_moves_remember_the_preferred_column() {
    let mut editor = open("abcdef\nab\nabcdef");
    go_to(&mut editor, 0, 5);
    editor.move_down();
    assert_eq!(
        editor.cursor(),
        Cursor { line_index: 1, grapheme_index: 2, preferred_grapheme_index: 5 }
    );
    editor.move_down();
    assert_eq!(editor.cursor(), cursor_at(2, 5));
    editor.move_down();
    assert_eq!(editor.cursor(), cursor_at(2, 5));
    editor.move_up();
    editor.move_up();
    assert_eq!(editor.cursor(), cursor_at(0, 5));
    editor.move_up();
    assert_eq!(editor.cursor(), cursor_at(0, 5));
}

#[test]
fn horizontal_moves_collapse_the_preferred_column() {
    let mut editor = open("abcdef\nab\nabcdef");
    go_to(&mut editor, 0, 5);
    editor.move_down();
    editor.move_left();
    assert_eq!(editor.cursor(), cursor_at(1, 1));
    editor.move_down();
    assert_eq!(editor.cursor(), cursor_at(2, 1));
}

#[test]
fn line_start_and_line_end() {
    let mut editor = open("abc\nde\u{301}f");
    go_to(&mut editor, 1, 1);
    editor.move_to_line_end();
    assert_eq!(editor.cursor(), cursor_at(1, 3));
    editor.move_to_line_start();
    assert_eq!(editor.cursor(), cursor_at(1, 0));
}

#[test]
fn collapse_preference_takes_the_current_column() {
    let mut editor = open("abc\n");
    go_to(&mut editor, 0, 2);
    editor.move_down();
    assert_eq!(
        editor.cursor(),
        Cursor { line_index: 1, grapheme_index: 0, preferred_grapheme_index: 2 }
    );
    editor.collapse_preference();
    assert_eq!(editor.cursor(), cursor_at(1, 0));
}

#[test]
fn insert_grapheme_does_not_move_the_cursor() {
    let mut editor = open("ab");
    go_to(&mut editor, 0, 1);
    editor.mark_saved();
    assert!(editor.is_current());
    editor.insert_grapheme('x');
    assert_eq!(texts(&editor), vec!["axb"]);
    assert_eq!(editor.cursor(), cursor_at(0, 1));
    assert!(!editor.is_current());
}

#[test]
fn insert_grapheme_on_a_multi_byte_line() {
    let mut editor = open("é🇷🇺");
    go_to(&mut editor, 0, 1);
    editor.insert_grapheme('ß');
    assert_eq!(texts(&editor), vec!["éß🇷🇺"]);
    assert_eq!(editor.cursor(), cursor_at(0, 1));
}

#[test]
fn insert_of_a_combining_mark_keeps_the_cursor_in_bounds() {
    let mut editor = open("e");
    go_to(&mut editor, 0, 1);
    editor.insert_grapheme('\u{301}');
    assert_eq!(texts(&editor), vec!["e\u{301}"]);
    assert_eq!(editor.line_length(0), Some(1));
    assert_eq!(editor.cursor(), cursor_at(0, 1));
}

#[test]
fn split_at_line_start_and_line_end() {
    let mut editor = open("ab");
    editor.split_line_at_cursor();
    assert_eq!(texts(&editor), vec!["", "ab"]);
    assert_eq!(editor.cursor(), cursor_at(1, 0));
    editor.move_to_line_end();
    editor.split_line_at_cursor();
    assert_eq!(texts(&editor), vec!["", "ab", ""]);
    assert_eq!(editor.cursor(), cursor_at(2, 0));
}

#[test]
fn split_keeps_clusters_whole() {
    let mut editor = open("e\u{301}🇷🇺\nz");
    go_to(&mut editor, 0, 1);
    editor.split_line_at_cursor();
    assert_eq!(texts(&editor), vec!["e\u{301}", "🇷🇺", "z"]);
    assert_eq!(editor.cursor(), cursor_at(1, 0));
}

#[test]
fn delete_takes_out_the_cluster_at_the_cursor() {
    let mut editor = open("ae\u{301}c");
    go_to(&mut editor, 0, 1);
    editor.mark_saved();
    editor.delete_grapheme_at_cursor();
    assert_eq!(texts(&editor), vec!["ac"]);
    assert_eq!(editor.cursor(), cursor_at(0, 1));
    assert!(!editor.is_current());
}

#[test]
fn delete_at_end_of_line_draws_the_next_line_up() {
    let mut editor = open("ab\ncd\nef");
    go_to(&mut editor, 0, 2);
    editor.mark_saved();
    editor.delete_grapheme_at_cursor();
    assert_eq!(texts(&editor), vec!["abcd", "ef"]);
    assert_eq!(editor.cursor(), cursor_at(0, 2));
    assert!(!editor.is_current());
}

#[test]
fn delete_at_end_of_last_line_changes_no_text() {
    let mut editor = open("ab\ncd");
    go_to(&mut editor, 1, 2);
    editor.mark_saved();
    editor.delete_grapheme_at_cursor();
    assert_eq!(texts(&editor), vec!["ab", "cd"]);
    assert_eq!(editor.cursor(), cursor_at(1, 2));
    assert!(editor.is_current());
}

#[test]
fn cursor_stays_in_bounds_through_a_long_session() {
    let mut editor = open("ab\nc\n\ndéf🇷🇺");
    let mut seed: u32 = 12345;
    for _ in 0..2000 {
        seed = seed.wrapping_mul(1103515245).wrapping_add(12345);
        match (seed >> 16) % 10 {
            0 => editor.move_right(),
            1 => {
                editor.move_left();
            }
            2 => editor.move_up(),
            3 => editor.move_down(),
            4 => editor.move_to_line_start(),
            5 => editor.move_to_line_end(),
            6 => editor.insert_grapheme('\u{301}'),
            7 => editor.split_line_at_cursor(),
            8 => editor.delete_grapheme_at_cursor(),
            _ => editor.insert_grapheme('🇷'),
        }
        let cursor = editor.cursor();
        assert!(editor.line_count() >= 1);
        assert!(cursor.line_index < editor.line_count());
        assert!(cursor.grapheme_index <= editor.line_length(cursor.line_index).unwrap());
    }
}

#[test]
fn viewport_follows_the_cursor() {
    let mut editor = open("0123456789\n1\n2\n3\n4\n5");
    editor.set_text_size((4, 3));
    assert_eq!(editor.viewport(), Viewport { top_line: 0, left_grapheme: 0, rows: 3, cols: 4 });
    for _ in 0..4 {
        editor.move_down();
    }
    assert_eq!(editor.viewport().top_line, 2);
    editor.move_up();
    assert_eq!(editor.viewport().top_line, 2);
    go_to(&mut editor, 0, 6);
    assert_eq!(editor.viewport(), Viewport { top_line: 0, left_grapheme: 3, rows: 3, cols: 4 });
    assert_eq!(editor.display_rightmost_char_index(0), 3);
    editor.move_to_line_start();
    assert_eq!(editor.viewport().left_grapheme, 0);
}

#[test]
fn edits_scroll_to_the_cursor() {
    let mut editor = open("a\nb\nc");
    editor.set_text_size((5, 2));
    editor.move_display_down();
    editor.move_display_down();
    assert_eq!(editor.viewport().top_line, 2);
    editor.insert_grapheme('x');
    assert_eq!(editor.viewport().top_line, 0);
}

#[test]
fn scrolling_leaves_the_cursor_alone() {
    let mut editor = open("a\nb\nc");
    editor.set_text_size((5, 2));
    editor.move_display_up();
    assert_eq!(editor.viewport().top_line, 0);
    editor.move_display_down();
    editor.move_display_down();
    editor.move_display_down();
    assert_eq!(editor.viewport().top_line, 3);
    assert_eq!(editor.cursor(), cursor_at(0, 0));
    editor.move_display_up();
    assert_eq!(editor.viewport().top_line, 2);
    editor.clamp_display_to_cursor();
    assert_eq!(editor.viewport().top_line, 0);
}

#[test]
fn resize_scrolls_to_the_cursor() {
    let mut editor = open("a\nb\nc\nd\ne");
    editor.set_text_size((5, 5));
    go_to(&mut editor, 4, 0);
    assert_eq!(editor.viewport().top_line, 0);
    editor.set_text_size((5, 2));
    assert_eq!(editor.viewport(), Viewport { top_line: 3, left_grapheme: 0, rows: 2, cols: 5 });
}

#[test]
fn content_joins_the_lines_with_the_terminator() {
    let mut editor = open("a\nb\n\nc");
    assert_eq!(editor.content(), "a\r\nb\r\n\r\nc");
    editor.set_use_crlf(false);
    assert!(!editor.use_crlf());
    assert_eq!(editor.content(), "a\nb\n\nc");
    assert_eq!(editor.text(), "a\nb\n\nc");
}

#[test]
fn reopening_the_content_gives_the_same_lines() {
    let mut editor = open("ab\n\ncd");
    go_to(&mut editor, 0, 1);
    editor.split_line_at_cursor();
    let again = Editor::new(String::from("notes.txt"), &editor.content());
    assert_eq!(texts(&again), texts(&editor));
    assert_eq!(texts(&again), vec!["a", "b", "", "cd"]);
}

#[test]
fn reopening_keeps_an_empty_last_line() {
    let mut editor = open("a");
    editor.move_to_line_end();
    editor.split_line_at_cursor();
    assert_eq!(texts(&editor), vec!["a", ""]);
    assert_eq!(editor.content(), "a\r\n");
    let again = Editor::new(String::from("notes.txt"), &editor.content());
    assert_eq!(texts(&again), vec!["a", ""]);
    editor.set_use_crlf(false);
    assert_eq!(editor.content(), "a\n");
    let again = Editor::new(String::from("notes.txt"), &editor.content());
    assert_eq!(texts(&again), vec!["a", ""]);
}

#[test]
fn status_message_extension_and_theme() {
    let mut editor = open("a");
    assert_eq!(editor.header_msg(), "");
    assert_eq!(editor.extension(), "");
    assert_eq!(editor.theme_name(), "");
    editor.set_header_msg(String::from("saved"));
    editor.set_extension(String::from("rs"));
    editor.set_theme_name(String::from("Solarized (dark)"));
    assert_eq!(editor.header_msg(), "saved");
    assert_eq!(editor.header_msg, "saved");
    assert_eq!(editor.extension(), "rs");
    assert_eq!(editor.theme_name(), "Solarized (dark)");
    let bar = editor.draw_title((0, 0), 0);
    assert_eq!(bar[3], DrawCommand::Print(String::from("~ *notes.txt ~ saved")));
}

#[test]
fn title_marks_unsaved_changes() {
    let mut editor = open("a");
    assert_eq!(editor.title(), "*notes.txt");
    editor.mark_saved();
    assert_eq!(editor.title(), "notes.txt");
    editor.insert_grapheme('x');
    assert_eq!(editor.title(), "*notes.txt");
}

#[test]
fn char_index_of_lines_and_columns() {
    let editor = open("e\u{301}x\nabc");
    assert_eq!(editor.char_index(0, 0), Some(0));
    assert_eq!(editor.char_index(0, 1), Some(2));
    assert_eq!(editor.char_index(0, 2), Some(3));
    assert_eq!(editor.char_index(0, 9), Some(3));
    assert_eq!(editor.char_index(1, 2), Some(2));
    assert_eq!(editor.char_index(2, 0), None);
}

#[test]
fn line_lookups() {
    let mut editor = open("ab\ncd");
    assert_eq!(editor.line_at_index(1).map(|line| line.as_str()), Some("cd"));
    assert_eq!(editor.line_at_index(2), None);
    editor.move_down();
    assert_eq!(editor.cursor_current_line(), "cd");
}

#[test]
fn settings() {
    let mut editor = open("");
    editor.set_show_cursor(false);
    assert!(!editor.show_cursor());
    assert!(editor.set_num_spaces_per_tab(8));
    assert_eq!(editor.num_spaces_per_tab(), 8);
    assert!(!editor.set_num_spaces_per_tab(0));
    assert_eq!(editor.num_spaces_per_tab(), 8);
}

#[test]
fn line_length_of_a_missing_line() {
    let editor = open("ab\nc");
    assert_eq!(editor.line_length(1), Some(1));
    assert_eq!(editor.line_length(2), None);
}

#[test]
fn validity_holds_through_edits() {
    let mut editor = open("ab\nc");
    assert!(editor.is_valid());
    editor.move_to_line_end();
    editor.delete_grapheme_at_cursor();
    editor.split_line_at_cursor();
    assert!(editor.is_valid());
}

#[test]
fn resolve_returns_to_the_preferred_column() {
    let mut editor = open("abcdef\nab");
    go_to(&mut editor, 0, 5);
    editor.move_down();
    editor.insert_grapheme('x');
    // The edit gave up the preference; a resolve changes nothing then.
    editor.resolve_cursor_index();
    assert_eq!(editor.cursor(), cursor_at(1, 2));

    let mut editor = open("ab\nabcdef");
    go_to(&mut editor, 1, 5);
    editor.move_up();
    editor.resolve_cursor_index();
    assert_eq!(
        editor.cursor(),
        Cursor { line_index: 0, grapheme_index: 2, preferred_grapheme_index: 5 }
    );
}
