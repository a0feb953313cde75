use termedit::editor::draw::{count_digits, DrawCommand};
use termedit::editor::Editor;
use termedit::highlight::Token;
use termedit::outputlog::OutputLog;
use termedit::style::{Color, Style, StyledSpan};
use termedit::syntax::{rust_syntax, SyntaxSet};

fn open(content: &str) -> Editor {
    Editor::new(String::from("a.txt"), content)
}

fn span(style: Style, text: &str) -> StyledSpan {
    StyledSpan { style, text: text.to_string() }
}

fn plain() -> Style {
    Style { foreground: None, background: None, bold: false }
}

fn fg(color: Color) -> Style {
    Style { foreground: Some(color), background: None, bold: false }
}

fn cursor_style() -> Style {
    Style { foreground: Some(Color::Black), background: Some(Color::White), bold: true }
}

fn print(text: &str) -> DrawCommand {
    DrawCommand::Print(text.to_string())
}

#[test]
fn digits_of_numbers() {
    assert_eq!(count_digits(0), 1);
    assert_eq!(count_digits(9), 1);
    assert_eq!(count_digits(10), 2);
    assert_eq!(count_digits(99), 2);
    assert_eq!(count_digits(100), 3);
    assert_eq!(count_digits(18446744073709551615), 20);
    assert_eq!(count_digits(u128::MAX), 39);
}

#[test]
fn gutter_width_is_digits_of_last_row_and_one() {
    let mut editor = open("a\nb");
    assert_eq!(editor.gutter_width(), 2);
    editor.set_text_size((10, 9));
    assert_eq!(editor.gutter_width(), 2);
    editor.set_text_size((10, 10));
    assert_eq!(editor.gutter_width(), 3);
    editor.move_display_down();
    editor.set_text_size((10, 99));
    assert_eq!(editor.viewport().top_line, 0);
    editor.move_display_down();
    assert_eq!(editor.gutter_width(), 4);
}

#[test]
fn title_bar_is_padded_to_the_width() {
    let mut editor = open("x");
    editor.header_msg = String::from("hi");
    assert_eq!(
        editor.draw_title((2, 3), 20),
        vec![
            DrawCommand::SetForegroundColor(Color::Black),
            DrawCommand::SetBackgroundColor(Color::Blue),
            DrawCommand::MoveTo(2, 3),
            print("~ *a.txt ~ hi       "),
            DrawCommand::ResetColor,
        ]
    );
}

#[test]
fn title_bar_longer_than_the_width_is_not_padded() {
    let mut editor = open("x");
    editor.mark_saved();
    let commands = editor.draw_title((0, 0), 4);
    assert_eq!(commands[3], print("~ a.txt ~ "));
    assert_eq!(commands.len(), 5);
}

#[test]
fn title_bar_counts_clusters_when_padding() {
    let mut editor = Editor::new(String::from("é"), "");
    editor.mark_saved();
    editor.header_msg = String::from("e\u{301}");
    let commands = editor.draw_title((0, 0), 10);
    assert_eq!(commands[3], print("~ é ~ e\u{301}   "));
}

#[test]
fn line_numbers_are_right_aligned() {
    let mut editor = open("a\nb\nc");
    editor.set_text_size((10, 4));
    assert_eq!(
        editor.draw_line_numbers((5, 1), 3, 2),
        vec![
            DrawCommand::MoveTo(5, 1),
            print(" 1 "),
            DrawCommand::MoveTo(5, 2),
            print(" 2 "),
            DrawCommand::MoveTo(5, 3),
            print(" 3 "),
            DrawCommand::MoveTo(5, 4),
            print("   "),
        ]
    );
}

#[test]
fn line_numbers_start_at_the_top_line() {
    let content = vec!["x"; 12].join("\n");
    let mut editor = open(&content);
    editor.set_text_size((10, 3));
    for _ in 0..10 {
        editor.move_down();
    }
    assert_eq!(editor.viewport().top_line, 8);
    assert_eq!(
        editor.draw_line_numbers((0, 0), 3, 2),
        vec![
            DrawCommand::MoveTo(0, 0),
            print(" 9 "),
            DrawCommand::MoveTo(0, 1),
            print("10 "),
            DrawCommand::MoveTo(0, 2),
            print("11 "),
        ]
    );
}

#[test]
fn line_numbers_keep_their_last_digits_in_a_narrow_gutter() {
    let content = vec!["x"; 12].join("\n");
    let mut editor = open(&content);
    editor.set_text_size((10, 2));
    for _ in 0..11 {
        editor.move_down();
    }
    assert_eq!(
        editor.draw_line_numbers((0, 0), 1, 1),
        vec![DrawCommand::MoveTo(0, 0), print("1"), DrawCommand::MoveTo(0, 1), print("2")]
    );
}

#[test]
fn text_rows_without_tokens_are_plain() {
    let mut editor = open("ab\nc");
    editor.set_show_cursor(false);
    editor.set_text_size((3, 3));
    assert_eq!(
        editor.draw_text((4, 1), &SyntaxSet::new(), &Vec::new()),
        vec![
            DrawCommand::MoveTo(4, 1),
            DrawCommand::PrintStyled(vec![span(plain(), "ab ")]),
            DrawCommand::MoveTo(4, 2),
            DrawCommand::PrintStyled(vec![span(plain(), "c  ")]),
            DrawCommand::MoveTo(4, 3),
            DrawCommand::PrintStyled(vec![span(plain(), "   ")]),
        ]
    );
}

#[test]
fn text_rows_are_styled_by_category_with_the_cursor_on_top() {
    let mut editor = open("fn x");
    editor.set_text_size((6, 1));
    let tokens = vec![vec![
        Token::Start(String::from("keyword")),
        Token::Text(String::from("fn")),
        Token::End(String::from("keyword")),
        Token::Text(String::from(" x")),
    ]];
    assert_eq!(
        editor.draw_text((0, 0), &rust_syntax(), &tokens),
        vec![
            DrawCommand::MoveTo(0, 0),
            DrawCommand::PrintStyled(vec![
                span(cursor_style(), "f"),
                span(fg(Color::Green), "n"),
                span(plain(), " x  "),
            ]),
        ]
    );
    editor.set_show_cursor(false);
    assert_eq!(
        editor.draw_text((0, 0), &rust_syntax(), &tokens),
        vec![
            DrawCommand::MoveTo(0, 0),
            DrawCommand::PrintStyled(vec![span(fg(Color::Green), "fn"), span(plain(), " x  ")]),
        ]
    );
}

#[test]
fn text_rows_carry_categories_over_lines_above_the_window() {
    let mut editor = open("/* a\nb\nc */ x");
    editor.set_show_cursor(false);
    editor.set_text_size((6, 2));
    editor.move_display_down();
    let tokens = vec![
        vec![Token::Start(String::from("comment")), Token::Text(String::from("/* a"))],
        vec![Token::Text(String::from("b"))],
        vec![
            Token::Text(String::from("c */")),
            Token::End(String::from("comment")),
            Token::Text(String::from(" x")),
        ],
    ];
    assert_eq!(
        editor.draw_text((1, 1), &rust_syntax(), &tokens),
        vec![
            DrawCommand::MoveTo(1, 1),
            DrawCommand::PrintStyled(vec![span(fg(Color::Gray), "b"), span(plain(), "     ")]),
            DrawCommand::MoveTo(1, 2),
            DrawCommand::PrintStyled(vec![span(fg(Color::Gray), "c */"), span(plain(), " x")]),
        ]
    );
}

#[test]
fn text_rows_are_clipped_to_the_window() {
    let mut editor = open("0123456789");
    editor.set_text_size((4, 1));
    for _ in 0..6 {
        editor.move_right();
    }
    assert_eq!(editor.viewport().left_grapheme, 3);
    assert_eq!(
        editor.draw_text((0, 0), &SyntaxSet::new(), &Vec::new()),
        vec![
            DrawCommand::MoveTo(0, 0),
            DrawCommand::PrintStyled(vec![span(plain(), "345"), span(cursor_style(), "6")]),
        ]
    );
}

#[test]
fn text_rows_never_show_text_that_the_line_does_not_hold() {
    // The tokens are of an older, longer text: only their styles are used.
    let mut editor = open("ab");
    editor.set_show_cursor(false);
    editor.set_text_size((5, 2));
    let tokens = vec![
        vec![Token::Start(String::from("string")), Token::Text(String::from("\"abcdefgh\""))],
        vec![Token::Text(String::from("gone"))],
        vec![Token::Text(String::from("gone too"))],
    ];
    assert_eq!(
        editor.draw_text((0, 0), &rust_syntax(), &tokens),
        vec![
            DrawCommand::MoveTo(0, 0),
            DrawCommand::PrintStyled(vec![span(fg(Color::Blue), "ab"), span(plain(), "   ")]),
            DrawCommand::MoveTo(0, 1),
            DrawCommand::PrintStyled(vec![span(plain(), "     ")]),
        ]
    );
}

#[test]
fn frame_is_title_gutter_and_text() {
    let mut editor = open("ab\nc");
    editor.mark_saved();
    let commands = editor.draw((1, 2), (6, 3), &SyntaxSet::new(), &Vec::new());
    assert_eq!(editor.viewport().cols, 4);
    assert_eq!(editor.viewport().rows, 2);
    assert_eq!(
        commands,
        vec![
            DrawCommand::SetForegroundColor(Color::Black),
            DrawCommand::SetBackgroundColor(Color::Blue),
            DrawCommand::MoveTo(1, 2),
            print("~ a.txt ~ "),
            DrawCommand::ResetColor,
            DrawCommand::MoveTo(1, 3),
            print("1 "),
            DrawCommand::MoveTo(1, 4),
            print("2 "),
            DrawCommand::MoveTo(3, 3),
            DrawCommand::PrintStyled(vec![
                span(cursor_style(), "a"),
                span(plain(), "b  "),
            ]),
            DrawCommand::MoveTo(3, 4),
            DrawCommand::PrintStyled(vec![span(plain(), "c   ")]),
        ]
    );
}

#[test]
fn frame_uses_the_gutter_width_of_the_frame_before() {
    let mut editor = open("a");
    // Nothing on screen yet: one digit. The frame then shows 11 rows.
    let first = editor.draw((0, 0), (10, 12), &SyntaxSet::new(), &Vec::new());
    assert_eq!(first[6], print("1 "));
    assert_eq!(editor.viewport().cols, 8);
    assert_eq!(editor.viewport().rows, 11);
    let second = editor.draw((0, 0), (10, 12), &SyntaxSet::new(), &Vec::new());
    assert_eq!(second[6], print(" 1 "));
    assert_eq!(editor.viewport().cols, 7);
}

#[test]
fn output_log_shows_its_message_line_by_line() {
    let log = OutputLog { msg: String::from("saved\r\n2 lines") };
    assert_eq!(log.text(), vec![String::from("saved"), String::from("2 lines")]);
    let log = OutputLog { msg: String::new() };
    assert_eq!(log.text(), vec![String::new()]);
}

#[test]
fn no_frame_without_room_for_it() {
    let mut editor = open("ab");
    editor.set_text_size((3, 3));
    let before = editor.viewport();
    // Narrower than the gutter.
    assert_eq!(editor.try_draw((0, 0), (1, 5), &SyntaxSet::new(), &Vec::new()), None);
    // No row for the title bar.
    assert_eq!(editor.try_draw((0, 0), (10, 0), &SyntaxSet::new(), &Vec::new()), None);
    // Beyond the last column that an instruction can name.
    assert_eq!(editor.try_draw((65000, 0), (600, 5), &SyntaxSet::new(), &Vec::new()), None);
    assert_eq!(editor.try_draw((0, 65535), (10, 1), &SyntaxSet::new(), &Vec::new()), None);
    assert_eq!(editor.viewport(), before);
}

#[test]
fn try_draw_draws_what_draw_draws() {
    let mut one = open("ab\nc");
    let mut other = open("ab\nc");
    let drawn = one.draw((1, 2), (6, 3), &SyntaxSet::new(), &Vec::new());
    assert_eq!(other.try_draw((1, 2), (6, 3), &SyntaxSet::new(), &Vec::new()), Some(drawn));
    assert_eq!(one.viewport(), other.viewport());
    // A gutter that fills the whole width leaves no column for text.
    let mut narrow = open("ab");
    let commands = narrow.try_draw((0, 0), (2, 2), &SyntaxSet::new(), &Vec::new()).unwrap();
    assert_eq!(narrow.viewport().cols, 0);
    assert_eq!(commands[8], DrawCommand::PrintStyled(Vec::new()));
}
