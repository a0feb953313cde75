//! The frame: title bar, line-number gutter and text rows, as positioned
//! draw instructions. Nothing here touches the terminal.

use crate::editor::model::EditorView;
use crate::editor::Editor;
use crate::graphemes::{count_graphemes, grapheme_count};
use crate::highlight::{
    category_after_row,
    category_before_row,
    cells_of_row,
    merge_spans,
    merged,
    row_cells,
    row_styles,
    rows_of,
    spaces,
    styles_of_row,
    Token,
    TokenView,
};
use crate::style::{spans_of, Color, Style, StyledSpan};
use crate::syntax::SyntaxSet;
use vstd::prelude::*;

verus! {

/// One instruction to the terminal.
#[derive(Clone, Debug, PartialEq, Eq)]
pub enum DrawCommand {
    SetForegroundColor(Color),
    SetBackgroundColor(Color),
    ResetColor,
    /// Go to the column and the row given.
    MoveTo(u16, u16),
    /// Write the text in the colours that are set.
    Print(String),
    /// Write the spans one after the other, each in its own style.
    PrintStyled(Vec<StyledSpan>),
}

/// A draw instruction as plain values.
pub enum DrawCommandView {
    SetForegroundColor(Color),
    SetBackgroundColor(Color),
    ResetColor,
    MoveTo(u16, u16),
    Print(Seq<char>),
    PrintStyled(Seq<(Style, Seq<char>)>),
}

impl View for DrawCommand {
    type V = DrawCommandView;

    open spec fn view(&self) -> DrawCommandView {
        match self {
            DrawCommand::SetForegroundColor(color) => DrawCommandView::SetForegroundColor(*color),
            DrawCommand::SetBackgroundColor(color) => DrawCommandView::SetBackgroundColor(*color),
            DrawCommand::ResetColor => DrawCommandView::ResetColor,
            DrawCommand::MoveTo(column, row) => DrawCommandView::MoveTo(*column, *row),
            DrawCommand::Print(text) => DrawCommandView::Print(text@),
            DrawCommand::PrintStyled(spans) => DrawCommandView::PrintStyled(spans_of(spans@)),
        }
    }
}

/// The views of a vector of draw instructions.
pub open spec fn commands_of(commands: Seq<DrawCommand>) -> Seq<DrawCommandView> {
    commands.map_values(|command: DrawCommand| command@)
}

/// `text`, followed by as many blanks as it has fewer than `width`
/// grapheme clusters.
pub open spec fn padded(text: Seq<char>, width: nat) -> Seq<char> {
    if grapheme_count(text) < width {
        text + spaces((width - grapheme_count(text)) as nat)
    } else {
        text
    }
}

/// The character for the digit `digit`.
pub open spec fn digit_char(digit: nat) -> char {
    (('0' as u8) + digit) as char
}

/// `number` in decimal digits.
pub open spec fn decimal(number: nat) -> Seq<char>
    decreases number,
{
    if number < 10 {
        seq![digit_char(number)]
    } else {
        decimal(number / 10).push(digit_char(number % 10))
    }
}

/// `text` at the right edge of a field `width` wide: blanks in front of a
/// shorter text, and of a longer text its end only.
pub open spec fn right_aligned(text: Seq<char>, width: nat) -> Seq<char> {
    if text.len() >= width {
        text.skip(text.len() - width)
    } else {
        spaces((width - text.len()) as nat) + text
    }
}

impl EditorView {
    /// The text of the title bar before padding: the title, then the
    /// status message.
    pub open spec fn header(self) -> Seq<char> {
        seq!['~', ' '] + self.title() + seq![' ', '~', ' '] + self.header_msg
    }

    /// The title bar: black on blue, `length` columns wide, from `at` on.
    pub open spec fn title_bar(self, at: (u16, u16), length: u16) -> Seq<DrawCommandView> {
        seq![
            DrawCommandView::SetForegroundColor(Color::Black),
            DrawCommandView::SetBackgroundColor(Color::Blue),
            DrawCommandView::MoveTo(at.0, at.1),
            DrawCommandView::Print(padded(self.header(), length as nat)),
            DrawCommandView::ResetColor,
        ]
    }

    /// The number of digits of the largest line number that may come on
    /// screen.
    pub open spec fn gutter_digits(self) -> nat {
        decimal((self.viewport.top_line + self.viewport.rows) as nat).len()
    }

    /// The width of the gutter: room for the largest line number, and one
    /// blank column.
    pub open spec fn gutter_width(self) -> nat {
        self.gutter_digits() + 1
    }

    /// Line `index`, or an empty line where the document has no such line.
    pub open spec fn line_or_blank(self, index: int) -> Seq<char> {
        if 0 <= index < self.lines.len() {
            self.lines[index]
        } else {
            Seq::empty()
        }
    }

    /// What the gutter shows beside screen row `row`: the number of the
    /// line, counted from one, at the right edge of `digits` columns and
    /// followed by blanks up to `thickness`; blanks only beside a row under
    /// the end of the document.
    pub open spec fn gutter_text(self, row: int, thickness: nat, digits: nat) -> Seq<char> {
        let line = self.viewport.top_line + row;
        if line < self.lines.len() {
            right_aligned(decimal((line + 1) as nat), digits) + spaces((thickness - digits) as nat)
        } else {
            spaces(thickness)
        }
    }

    /// Instruction number `i` of the gutter: a move to the start of a screen
    /// row, or the number to write there.
    pub open spec fn gutter_command(
        self,
        at: (u16, u16),
        thickness: nat,
        digits: nat,
        i: int,
    ) -> DrawCommandView {
        if i % 2 == 0 {
            DrawCommandView::MoveTo(at.0, (at.1 + i / 2) as u16)
        } else {
            DrawCommandView::Print(self.gutter_text(i / 2, thickness, digits))
        }
    }

    /// The gutter: for each screen row, a move to its start and its number.
    pub open spec fn gutter(self, at: (u16, u16), thickness: nat, digits: nat) -> Seq<
        DrawCommandView,
    > {
        Seq::new(
            2 * self.viewport.rows as nat,
            |i: int| self.gutter_command(at, thickness, digits, i),
        )
    }

    /// The column of the cursor, where it is drawn on line `index`.
    pub open spec fn cursor_column_on(self, index: int) -> Option<usize> {
        if self.show_cursor && index == self.cursor.line_index {
            Some(self.cursor.grapheme_index)
        } else {
            None
        }
    }

    /// The spans of screen row `row`: the visible part of its line, padded
    /// with blanks to the full width, in the styles that the tokens and the
    /// style map give, with the cursor drawn over it.
    pub open spec fn row_spans(
        self,
        row: int,
        tokens: Seq<Seq<TokenView>>,
        styles: Map<Seq<char>, Style>,
    ) -> Seq<(Style, Seq<char>)> {
        let index = self.viewport.top_line + row;
        merged(
            row_cells(
                self.line_or_blank(index),
                row_styles(tokens, index, styles),
                self.viewport.left_grapheme,
                self.viewport.cols,
                self.cursor_column_on(index),
            ),
        )
    }

    /// Instruction number `i` of the text area: a move to the start of a
    /// screen row, or the spans to write there.
    pub open spec fn text_command(
        self,
        at: (u16, u16),
        tokens: Seq<Seq<TokenView>>,
        styles: Map<Seq<char>, Style>,
        i: int,
    ) -> DrawCommandView {
        if i % 2 == 0 {
            DrawCommandView::MoveTo(at.0, (at.1 + i / 2) as u16)
        } else {
            DrawCommandView::PrintStyled(self.row_spans(i / 2, tokens, styles))
        }
    }

    /// Whether a frame can be drawn into the area `size` wide and high with
    /// its corner at `at`: the area holds the title bar and the gutter, and
    /// lies within the coordinates that an instruction can name.
    pub open spec fn has_room_for_frame(self, at: (u16, u16), size: (u16, u16)) -> bool {
        &&& size.0 >= self.gutter_width()
        &&& size.1 >= 1
        &&& at.0 + size.0 <= u16::MAX
        &&& at.1 + size.1 <= u16::MAX
    }

    /// The state after a frame has been drawn into an area `size` wide and
    /// high: the visible rectangle is what the title bar and the gutter
    /// leave of the area, scrolled to the cursor.
    pub open spec fn after_draw(self, size: (u16, u16)) -> EditorView {
        self.set_text_size((size.0 - self.gutter_width()) as usize, (size.1 - 1) as usize)
    }

    /// A whole frame in an area `size` wide and high with its corner at
    /// `at`: the title bar in the first row; under it the gutter, as wide as
    /// the line numbers asked for before this frame, and beside the gutter
    /// the text rows.
    pub open spec fn frame(
        self,
        at: (u16, u16),
        size: (u16, u16),
        tokens: Seq<Seq<TokenView>>,
        styles: Map<Seq<char>, Style>,
    ) -> Seq<DrawCommandView> {
        let shown = self.after_draw(size);
        self.title_bar(at, size.0) + shown.gutter(
            (at.0, (at.1 + 1) as u16),
            self.gutter_width(),
            self.gutter_digits(),
        ) + shown.text_rows(
            ((at.0 + self.gutter_width()) as u16, (at.1 + 1) as u16),
            tokens,
            styles,
        )
    }

    /// The text rows: for each screen row, a move to its start and its
    /// spans.
    pub open spec fn text_rows(
        self,
        at: (u16, u16),
        tokens: Seq<Seq<TokenView>>,
        styles: Map<Seq<char>, Style>,
    ) -> Seq<DrawCommandView> {
        Seq::new(
            2 * self.viewport.rows as nat,
            |i: int| self.text_command(at, tokens, styles, i),
        )
    }
}

/// Appends `count` blanks to `text`.
fn push_spaces(text: &mut String, count: usize)
    ensures
        final(text)@ == old(text)@ + spaces(count as nat),
{
    let mut n: usize = 0;
    assert(text@ =~= old(text)@ + spaces(0));
    while n < count
        invariant
            n <= count,
            text@ == old(text)@ + spaces(n as nat),
        decreases count - n,
    {
        text.push(' ');
        n = n + 1;
        assert(text@ =~= old(text)@ + spaces(n as nat));
    }
}

/// `number` written from the right into a field `width` wide, digit by
/// digit; where the digits have run out, blanks.
pub open spec fn aligned(number: nat, width: nat) -> Seq<char>
    decreases width,
{
    if width == 0 {
        Seq::empty()
    } else {
        aligned(number / 10, (width - 1) as nat).push(
            if number == 0 {
                ' '
            } else {
                digit_char(number % 10)
            },
        )
    }
}

/// A field filled from the right with the digits of zero holds blanks
/// only.
pub proof fn lemma_aligned_zero(width: nat)
    ensures
        aligned(0, width) == spaces(width),
    decreases width,
{
    if width > 0 {
        lemma_aligned_zero((width - 1) as nat);
        assert(spaces((width - 1) as nat).push(' ') =~= spaces(width));
    } else {
        assert(spaces(0) =~= Seq::<char>::empty());
    }
}

/// Filling a field from the right with the digits of a positive number
/// gives the number in decimal at the right edge of the field.
pub proof fn lemma_aligned_is_right_aligned(number: nat, width: nat)
    requires
        number >= 1,
    ensures
        aligned(number, width) == right_aligned(decimal(number), width),
    decreases width,
{
    let digits = decimal(number);
    if width == 0 {
        assert(digits.skip(digits.len() as int) =~= Seq::<char>::empty());
    } else if number < 10 {
        lemma_aligned_zero((width - 1) as nat);
        assert(right_aligned(digits, width) =~= spaces((width - 1) as nat).push(
            digit_char(number),
        ));
    } else {
        let front = decimal(number / 10);
        lemma_aligned_is_right_aligned(number / 10, (width - 1) as nat);
        assert(right_aligned(front, (width - 1) as nat).push(digit_char(number % 10))
            =~= right_aligned(digits, width));
    }
}

/// Ten to the power of `exponent`.
pub open spec fn power_of_ten(exponent: nat) -> nat
    decreases exponent,
{
    if exponent == 0 {
        1
    } else {
        10 * power_of_ten((exponent - 1) as nat)
    }
}

/// A number below ten to the power of `digits` has `digits` decimal digits
/// at most.
pub proof fn lemma_decimal_length(number: nat, digits: nat)
    requires
        digits >= 1,
        number < power_of_ten(digits),
    ensures
        1 <= decimal(number).len() <= digits,
    decreases digits,
{
    if number >= 10 {
        assert(power_of_ten(1) == 10) by {
            reveal_with_fuel(power_of_ten, 2);
        }
        lemma_decimal_length(number / 10, (digits - 1) as nat);
    }
}

/// The number of decimal digits of `number`.
pub fn count_digits(number: u128) -> (digits: usize)
    ensures
        digits == decimal(number as nat).len(),
        1 <= digits <= 39,
{
    proof {
        assert(power_of_ten(39) == 1000000000000000000000000000000000000000) by {
            reveal_with_fuel(power_of_ten, 40);
        }
        lemma_decimal_length(number as nat, 39);
    }
    let mut digits: usize = 1;
    let mut rest = number;
    while rest >= 10
        invariant
            1 <= digits,
            digits + decimal(rest as nat).len() == decimal(number as nat).len() + 1,
            decimal(number as nat).len() <= 39,
        decreases rest,
    {
        rest = rest / 10;
        digits = digits + 1;
    }
    digits
}

/// Appends to `text` a field `width` wide with `number` at its right edge.
fn push_aligned(text: &mut String, number: usize, width: usize)
    ensures
        final(text)@ == old(text)@ + aligned(number as nat, width as nat),
    decreases width,
{
    if width > 0 {
        push_aligned(text, number / 10, width - 1);
        if number == 0 {
            text.push(' ');
        } else {
            text.push(('0' as u8 + (number % 10) as u8) as char);
        }
        assert(text@ =~= old(text)@ + aligned(number as nat, width as nat));
    } else {
        assert(text@ =~= old(text)@ + aligned(number as nat, width as nat));
    }
}

impl Editor {
    /// The width of the gutter: the digits of the largest line number that
    /// may come on screen, and one blank column.
    pub fn gutter_width(&self) -> (width: usize)
        ensures
            width == self@.gutter_width(),
            2 <= width <= 40,
    {
        count_digits(self.viewport.top_line as u128 + self.viewport.rows as u128) + 1
    }

    /// Draws the line numbers beside the screen rows, from `at` downwards,
    /// in a gutter `thickness` columns wide of which the numbers take
    /// `digit_count`.
    pub fn draw_line_numbers(
        &self,
        at: (u16, u16),
        thickness: usize,
        digit_count: usize,
    ) -> (commands: Vec<DrawCommand>)
        requires
            digit_count <= thickness,
            at.1 + self@.viewport.rows <= u16::MAX + 1,
        ensures
            commands_of(commands@) == self@.gutter(at, thickness as nat, digit_count as nat),
    {
        let rows = self.viewport.rows;
        let top = self.viewport.top_line;
        let count = self.lines.len();
        let mut commands: Vec<DrawCommand> = Vec::new();
        let mut row: usize = 0;
        while row < rows
            invariant
                row <= rows,
                rows == self@.viewport.rows,
                top == self@.viewport.top_line,
                count == self@.lines.len(),
                digit_count <= thickness,
                at.1 + rows <= u16::MAX + 1,
                commands_of(commands@) == Seq::new(
                    2 * row as nat,
                    |i: int|
                        self@.gutter_command(at, thickness as nat, digit_count as nat, i),
                ),
            decreases rows - row,
        {
            let ghost before = commands_of(commands@);
            let mut text = String::new();
            if top < count && row < count - top {
                proof {
                    lemma_aligned_is_right_aligned((top + row + 1) as nat, digit_count as nat);
                }
                push_aligned(&mut text, top + row + 1, digit_count);
                push_spaces(&mut text, thickness - digit_count);
            } else {
                push_spaces(&mut text, thickness);
            }
            assert(text@ =~= self@.gutter_text(row as int, thickness as nat, digit_count as nat));
            commands.push(DrawCommand::MoveTo(at.0, at.1 + row as u16));
            commands.push(DrawCommand::Print(text));
            proof {
                assert(commands_of(commands@) =~= before.push(
                    DrawCommandView::MoveTo(at.0, (at.1 + row) as u16),
                ).push(DrawCommandView::Print(text@)));
                assert((2 * row) % 2 == 0 && (2 * row) / 2 == row);
                assert((2 * row + 1) % 2 == 1 && (2 * row + 1) / 2 == row);
            }
            row = row + 1;
            assert(commands_of(commands@) =~= Seq::new(
                2 * row as nat,
                |i: int| self@.gutter_command(at, thickness as nat, digit_count as nat, i),
            ));
        }
        commands
    }

    /// Draws the text rows, from `at` downwards: of each line on screen the
    /// columns that are visible, padded with blanks to the full width, in
    /// the styles that `tokens` and `syntax` give, with the cursor drawn
    /// over them. `tokens` is the categorizer's answer for the whole
    /// document, one row of tokens for each line.
    pub fn draw_text(
        &self,
        at: (u16, u16),
        syntax: &SyntaxSet,
        tokens: &Vec<Vec<Token>>,
    ) -> (commands: Vec<DrawCommand>)
        requires
            at.1 + self@.viewport.rows <= u16::MAX + 1,
        ensures
            commands_of(commands@) == self@.text_rows(at, rows_of(tokens@), syntax.styles()),
    {
        let rows = self.viewport.rows;
        let top = self.viewport.top_line;
        let ghost all = rows_of(tokens@);
        let ghost map = syntax.styles();
        let blank = String::new();

        let mut category = String::new();
        let mut seen: usize = 0;
        while seen < top && seen < tokens.len()
            invariant
                seen <= top,
                seen <= tokens.len(),
                all == rows_of(tokens@),
                category@ == category_before_row(all, seen as int),
            decreases tokens.len() - seen,
        {
            category = category_after_row(&tokens[seen], category);
            seen = seen + 1;
        }

        let line_count = self.lines.len();
        let token_rows = tokens.len();
        let mut commands: Vec<DrawCommand> = Vec::new();
        let mut row: usize = 0;
        while row < rows
            invariant
                row <= rows,
                rows == self@.viewport.rows,
                top == self@.viewport.top_line,
                line_count == self.lines@.len(),
                token_rows == tokens@.len(),
                at.1 + rows <= u16::MAX + 1,
                all == rows_of(tokens@),
                map == syntax.styles(),
                blank@ == Seq::<char>::empty(),
                top + row <= tokens.len() ==> category@ == category_before_row(all, top + row),
                commands_of(commands@) == Seq::new(
                    2 * row as nat,
                    |i: int| self@.text_command(at, all, map, i),
                ),
            decreases rows - row,
        {
            let ghost before = commands_of(commands@);
            let mut styles: Vec<Style> = Vec::new();
            let mut line: &str = blank.as_str();
            let mut cursor_column: Option<usize> = None;
            if row <= usize::MAX - top {
                let index = top + row;
                if index < token_rows {
                    let (found, after) = styles_of_row(&tokens[index], category, syntax);
                    styles = found;
                    category = after;
                }
                if index < line_count {
                    line = self.lines[index].as_str();
                }
                if self.show_cursor && index == self.cursor.line_index {
                    cursor_column = Some(self.cursor.grapheme_index);
                }
            }
            let spans = merge_spans(
                cells_of_row(
                    line,
                    &styles,
                    self.viewport.left_grapheme,
                    self.viewport.cols,
                    cursor_column,
                ),
            );
            proof {
                assert(self@.lines.len() == self.lines@.len());
                if top + row < self.lines@.len() {
                    assert(self@.lines[top + row] == self.lines@[top + row]@);
                }
                assert(line@ == self@.line_or_blank(top + row));
                assert(styles@ =~= row_styles(all, top + row, map));
                assert(cursor_column == self@.cursor_column_on(top + row));
                assert(spans_of(spans@) == self@.row_spans(row as int, all, map));
            }
            commands.push(DrawCommand::MoveTo(at.0, at.1 + row as u16));
            commands.push(DrawCommand::PrintStyled(spans));
            proof {
                assert(commands_of(commands@) =~= before.push(
                    DrawCommandView::MoveTo(at.0, (at.1 + row) as u16),
                ).push(DrawCommandView::PrintStyled(spans_of(spans@))));
                assert((2 * row) % 2 == 0 && (2 * row) / 2 == row);
                assert((2 * row + 1) % 2 == 1 && (2 * row + 1) / 2 == row);
            }
            row = row + 1;
            assert(commands_of(commands@) =~= Seq::new(
                2 * row as nat,
                |i: int| self@.text_command(at, all, map, i),
            ));
        }
        commands
    }

    /// Draws a frame into the area `size` wide and high with its corner at
    /// `at`, and takes what the title bar and the gutter leave of the area
    /// as the new visible rectangle. The area has to hold the title bar and
    /// the gutter, and to lie within the coordinates that an instruction
    /// can name.
    pub fn draw(
        &mut self,
        at: (u16, u16),
        size: (u16, u16),
        syntax: &SyntaxSet,
        tokens: &Vec<Vec<Token>>,
    ) -> (commands: Vec<DrawCommand>)
        requires
            old(self)@.has_room_for_frame(at, size),
        ensures
            final(self)@ == old(self)@.after_draw(size),
            commands_of(commands@) == old(self)@.frame(
                at,
                size,
                rows_of(tokens@),
                syntax.styles(),
            ),
            old(self)@.valid() ==> final(self)@.valid(),
    {
        let mut commands = self.draw_title(at, size.0);

        let title_thickness: u16 = 1;
        let line_numbers_thickness = self.gutter_width();
        let digit_count = line_numbers_thickness - 1;

        self.set_text_size(
            (size.0 as usize - line_numbers_thickness, (size.1 - title_thickness) as usize),
        );

        let mut numbers = self.draw_line_numbers(
            (at.0, at.1 + title_thickness),
            line_numbers_thickness,
            digit_count,
        );
        let mut text = self.draw_text(
            (at.0 + line_numbers_thickness as u16, at.1 + title_thickness),
            syntax,
            tokens,
        );
        proof {
            assert(commands_of(commands@ + numbers@ + text@) =~= commands_of(commands@)
                + commands_of(numbers@) + commands_of(text@));
        }
        commands.append(&mut numbers);
        commands.append(&mut text);
        commands
    }

    /// Draws a frame if the area has room for one, and nothing if it has
    /// not: the editor is then left as it is.
    pub fn try_draw(
        &mut self,
        at: (u16, u16),
        size: (u16, u16),
        syntax: &SyntaxSet,
        tokens: &Vec<Vec<Token>>,
    ) -> (commands: Option<Vec<DrawCommand>>)
        ensures
            old(self)@.has_room_for_frame(at, size) ==> commands is Some && final(self)@ == old(
                self,
            )@.after_draw(size) && commands_of(commands->0@) == old(self)@.frame(
                at,
                size,
                rows_of(tokens@),
                syntax.styles(),
            ),
            !old(self)@.has_room_for_frame(at, size) ==> commands is None && final(self)@ == old(
                self,
            )@,
    {
        if size.0 as usize >= self.gutter_width() && size.1 >= 1 && size.0 <= u16::MAX - at.0
            && size.1 <= u16::MAX - at.1 {
            Some(self.draw(at, size, syntax, tokens))
        } else {
            None
        }
    }

    /// Draws the title bar, `length` columns wide, from `at` on.
    pub fn draw_title(&self, at: (u16, u16), length: u16) -> (commands: Vec<DrawCommand>)
        ensures
            commands_of(commands@) == self@.title_bar(at, length),
    {
        let mut header = String::new();
        header.push('~');
        header.push(' ');
        header.append(self.title().as_str());
        header.push(' ');
        header.push('~');
        header.push(' ');
        header.append(self.header_msg.as_str());
        assert(header@ =~= self@.header());
        let width = count_graphemes(header.as_str());
        if width < length as usize {
            push_spaces(&mut header, length as usize - width);
        }
        let mut commands: Vec<DrawCommand> = Vec::new();
        commands.push(DrawCommand::SetForegroundColor(Color::Black));
        commands.push(DrawCommand::SetBackgroundColor(Color::Blue));
        commands.push(DrawCommand::MoveTo(at.0, at.1));
        commands.push(DrawCommand::Print(header));
        commands.push(DrawCommand::ResetColor);
        assert(commands_of(commands@) =~= self@.title_bar(at, length));
        commands
    }
}

} // verus!
