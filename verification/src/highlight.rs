//! From the categorizer's tokens to the styled cells of a screen row.
//!
//! A categorizer reads the whole document and answers, row by row, with a
//! stream of tokens: the start of a category, text, the end of a category.
//! Nothing is taken on trust from it. What is drawn is always the text of
//! the line store, cluster by cluster; the tokens only decide the style:
//! a cluster is drawn in the style of the category that the tokens give to
//! the place of its first `char`, and in the plain style where they give
//! none.

use crate::graphemes::{
    concat_range,
    grapheme_clusters,
    grapheme_count,
    grapheme_offset,
    segment,
    texts_of,
};
use crate::style::{spans_of, Style, StyledSpan};
use crate::syntax::{style_for, SyntaxSet};
use vstd::prelude::*;

verus! {

/// One item of a categorizer's answer.
#[derive(Clone, Debug, PartialEq, Eq)]
pub enum Token {
    /// From here on the text belongs to the named category.
    Start(String),
    /// A piece of the row's text.
    Text(String),
    /// The named category ends here.
    End(String),
}

/// A token as plain values.
pub enum TokenView {
    Start(Seq<char>),
    Text(Seq<char>),
    End(Seq<char>),
}

impl View for Token {
    type V = TokenView;

    open spec fn view(&self) -> TokenView {
        match self {
            Token::Start(kind) => TokenView::Start(kind@),
            Token::Text(text) => TokenView::Text(text@),
            Token::End(kind) => TokenView::End(kind@),
        }
    }
}

/// The views of the tokens of one row.
pub open spec fn tokens_of(tokens: Seq<Token>) -> Seq<TokenView> {
    tokens.map_values(|token: Token| token@)
}

/// The views of the tokens of all rows.
pub open spec fn rows_of(rows: Seq<Vec<Token>>) -> Seq<Seq<TokenView>> {
    rows.map_values(|row: Vec<Token>| tokens_of(row@))
}

/// The category in force behind `token`, where `category` was in force in
/// front of it. No category is written as the empty name.
pub open spec fn category_behind(token: TokenView, category: Seq<char>) -> Seq<char> {
    match token {
        TokenView::Start(kind) => kind,
        TokenView::Text(_) => category,
        TokenView::End(_) => Seq::empty(),
    }
}

/// The category in force behind all of `tokens`.
pub open spec fn category_after(tokens: Seq<TokenView>, category: Seq<char>) -> Seq<char>
    decreases tokens.len(),
{
    if tokens.len() == 0 {
        category
    } else {
        category_after(tokens.drop_first(), category_behind(tokens.first(), category))
    }
}

/// The category in force at the start of row number `row`: categories stay
/// in force from one row to the next.
pub open spec fn category_before_row(rows: Seq<Seq<TokenView>>, row: int) -> Seq<char>
    decreases row,
{
    if row <= 0 || row > rows.len() {
        Seq::empty()
    } else {
        category_after(rows[row - 1], category_before_row(rows, row - 1))
    }
}

/// The style that `tokens` give to each `char` of their text, in order.
pub open spec fn char_styles(
    tokens: Seq<TokenView>,
    category: Seq<char>,
    styles: Map<Seq<char>, Style>,
) -> Seq<Style>
    decreases tokens.len(),
{
    if tokens.len() == 0 {
        Seq::empty()
    } else {
        let here = match tokens.first() {
            TokenView::Text(text) => Seq::new(text.len(), |i: int| style_for(styles, category)),
            _ => Seq::empty(),
        };
        here + char_styles(
            tokens.drop_first(),
            category_behind(tokens.first(), category),
            styles,
        )
    }
}

/// The style of each `char` of row number `row`; nothing where the
/// categorizer gave no such row.
pub open spec fn row_styles(
    rows: Seq<Seq<TokenView>>,
    row: int,
    styles: Map<Seq<char>, Style>,
) -> Seq<Style> {
    if 0 <= row < rows.len() {
        char_styles(rows[row], category_before_row(rows, row), styles)
    } else {
        Seq::empty()
    }
}

/// Follows the categories through `tokens`: the category in force behind
/// them, where `category` was in force in front.
pub fn category_after_row(tokens: &Vec<Token>, category: String) -> (after: String)
    ensures
        after@ == category_after(tokens_of(tokens@), category@),
{
    let mut current = category;
    let mut i: usize = 0;
    assert(tokens_of(tokens@).skip(0) =~= tokens_of(tokens@));
    while i < tokens.len()
        invariant
            i <= tokens.len(),
            category_after(tokens_of(tokens@), category@) == category_after(
                tokens_of(tokens@).skip(i as int),
                current@,
            ),
        decreases tokens.len() - i,
    {
        proof {
            let rest = tokens_of(tokens@).skip(i as int);
            assert(rest.first() == tokens[i as int]@);
            assert(rest.drop_first() =~= tokens_of(tokens@).skip(i + 1));
        }
        match &tokens[i] {
            Token::Start(kind) => {
                current = kind.clone();
            },
            Token::Text(_) => {},
            Token::End(_) => {
                current = String::new();
            },
        }
        i = i + 1;
    }
    current
}

/// Works out the style of each `char` of a row from its tokens, and
/// follows the categories through them.
pub fn styles_of_row(tokens: &Vec<Token>, category: String, syntax: &SyntaxSet) -> (answer: (
    Vec<Style>,
    String,
))
    ensures
        answer.0@ == char_styles(tokens_of(tokens@), category@, syntax.styles()),
        answer.1@ == category_after(tokens_of(tokens@), category@),
{
    let ghost all = tokens_of(tokens@);
    let ghost map = syntax.styles();
    let mut styles: Vec<Style> = Vec::new();
    let mut current = category;
    let mut i: usize = 0;
    proof {
        assert(all.skip(0) =~= all);
        assert(styles@ + char_styles(all, category@, map) =~= char_styles(all, category@, map));
    }
    while i < tokens.len()
        invariant
            i <= tokens.len(),
            all == tokens_of(tokens@),
            map == syntax.styles(),
            category_after(all, category@) == category_after(all.skip(i as int), current@),
            char_styles(all, category@, map) == styles@ + char_styles(
                all.skip(i as int),
                current@,
                map,
            ),
        decreases tokens.len() - i,
    {
        let ghost rest = all.skip(i as int);
        let ghost before = styles@;
        proof {
            assert(rest.first() == tokens[i as int]@);
            assert(rest.drop_first() =~= all.skip(i + 1));
        }
        match &tokens[i] {
            Token::Start(kind) => {
                proof {
                    assert(before + Seq::<Style>::empty() =~= before);
                }
                current = kind.clone();
            },
            Token::Text(text) => {
                let style = syntax.style_of(current.as_str());
                let length = text.as_str().unicode_len();
                let mut n: usize = 0;
                while n < length
                    invariant
                        n <= length,
                        styles@ == before + Seq::new(n as nat, |k: int| style),
                    decreases length - n,
                {
                    styles.push(style);
                    n = n + 1;
                    assert(styles@ =~= before + Seq::new(n as nat, |k: int| style));
                }
                proof {
                    let here = Seq::new(text@.len(), |k: int| style_for(map, current@));
                    assert(Seq::new(length as nat, |k: int| style) =~= here);
                    let tail = char_styles(rest.drop_first(), current@, map);
                    assert((before + here) + tail =~= before + (here + tail));
                }
            },
            Token::End(_) => {
                proof {
                    assert(before + Seq::<Style>::empty() =~= before);
                }
                current = String::new();
            },
        }
        i = i + 1;
    }
    proof {
        assert(styles@ + Seq::<Style>::empty() =~= styles@);
    }
    (styles, current)
}

/// The text tokens of a row as spans: one span for each text token, in the
/// style of the category in force where the token stands.
pub open spec fn token_spans(
    tokens: Seq<TokenView>,
    category: Seq<char>,
    styles: Map<Seq<char>, Style>,
) -> Seq<(Style, Seq<char>)>
    decreases tokens.len(),
{
    if tokens.len() == 0 {
        Seq::empty()
    } else {
        let here = match tokens.first() {
            TokenView::Text(text) => seq![(style_for(styles, category), text)],
            _ => Seq::empty(),
        };
        here + token_spans(
            tokens.drop_first(),
            category_behind(tokens.first(), category),
            styles,
        )
    }
}

/// Turns the text tokens of a row into spans, each in the style of the
/// category in force, and follows the categories through the row.
pub fn spans_of_tokens(tokens: &Vec<Token>, category: String, syntax: &SyntaxSet) -> (answer: (
    Vec<StyledSpan>,
    String,
))
    ensures
        spans_of(answer.0@) == token_spans(tokens_of(tokens@), category@, syntax.styles()),
        answer.1@ == category_after(tokens_of(tokens@), category@),
{
    let ghost all = tokens_of(tokens@);
    let ghost map = syntax.styles();
    let mut spans: Vec<StyledSpan> = Vec::new();
    let mut current = category;
    let mut i: usize = 0;
    proof {
        assert(all.skip(0) =~= all);
        assert(spans_of(spans@) + token_spans(all, category@, map) =~= token_spans(
            all,
            category@,
            map,
        ));
    }
    while i < tokens.len()
        invariant
            i <= tokens.len(),
            all == tokens_of(tokens@),
            map == syntax.styles(),
            category_after(all, category@) == category_after(all.skip(i as int), current@),
            token_spans(all, category@, map) == spans_of(spans@) + token_spans(
                all.skip(i as int),
                current@,
                map,
            ),
        decreases tokens.len() - i,
    {
        let ghost rest = all.skip(i as int);
        let ghost before = spans_of(spans@);
        proof {
            assert(rest.first() == tokens[i as int]@);
            assert(rest.drop_first() =~= all.skip(i + 1));
        }
        match &tokens[i] {
            Token::Start(kind) => {
                proof {
                    assert(before + Seq::<(Style, Seq<char>)>::empty() =~= before);
                }
                current = kind.clone();
            },
            Token::Text(text) => {
                let style = syntax.style_of(current.as_str());
                let text = text.clone();
                proof {
                    let here = seq![(style, text@)];
                    let tail = token_spans(rest.drop_first(), current@, map);
                    assert(spans_of(spans@.push(StyledSpan { style, text })) =~= before + here);
                    assert((before + here) + tail =~= before + (here + tail));
                }
                spans.push(StyledSpan { style, text });
            },
            Token::End(_) => {
                proof {
                    assert(before + Seq::<(Style, Seq<char>)>::empty() =~= before);
                }
                current = String::new();
            },
        }
        i = i + 1;
    }
    proof {
        assert(spans_of(spans@) + Seq::<(Style, Seq<char>)>::empty() =~= spans_of(spans@));
    }
    (spans, current)
}

/// What stands in column `column` of a line: the cluster with that number
/// in the style that `styles` gives to its first `char`, or a blank in the
/// plain style where the line has no such cluster. The cell under the
/// cursor is drawn in the cursor's style, whatever its category.
pub open spec fn cell(
    line: Seq<char>,
    styles: Seq<Style>,
    column: int,
    cursor_column: Option<usize>,
) -> (Style, Seq<char>) {
    let on_line = 0 <= column < grapheme_count(line);
    let offset = grapheme_offset(line, column);
    let style = if cursor_column is Some && cursor_column->0 == column {
        Style::cursor()
    } else if on_line && offset < styles.len() {
        styles[offset as int]
    } else {
        Style::plain()
    };
    let text = if on_line {
        grapheme_clusters(line)[column]
    } else {
        seq![' ']
    };
    (style, text)
}

/// The cells of a screen row that shows `cols` columns of `line` from
/// column `left` on: always `cols` of them, so that a short line overwrites
/// what an earlier frame left behind.
pub open spec fn row_cells(
    line: Seq<char>,
    styles: Seq<Style>,
    left: usize,
    cols: usize,
    cursor_column: Option<usize>,
) -> Seq<(Style, Seq<char>)> {
    Seq::new(cols as nat, |j: int| cell(line, styles, left + j, cursor_column))
}

/// The cells with each run of neighbours in one style drawn together into
/// one span.
pub open spec fn merged(cells: Seq<(Style, Seq<char>)>) -> Seq<(Style, Seq<char>)>
    decreases cells.len(),
{
    if cells.len() == 0 {
        Seq::empty()
    } else {
        let before = merged(cells.drop_last());
        let cell = cells.last();
        if before.len() > 0 && before.last().0 == cell.0 {
            before.drop_last().push((cell.0, before.last().1 + cell.1))
        } else {
            before.push(cell)
        }
    }
}

/// `count` blanks.
pub open spec fn spaces(count: nat) -> Seq<char> {
    Seq::new(count, |i: int| ' ')
}

/// What a screen row shows of `line` through a window of `cols` columns
/// from column `left` on: the clusters of the line that lie in the window,
/// and a blank for each column behind the end of the line.
pub open spec fn window_text(line: Seq<char>, left: int, cols: int) -> Seq<char> {
    let clusters = grapheme_clusters(line);
    let from = if left <= clusters.len() {
        left
    } else {
        clusters.len() as int
    };
    let to = if left + cols <= clusters.len() {
        left + cols
    } else {
        clusters.len() as int
    };
    if from < to {
        clusters.subrange(from, to).flatten() + spaces((cols - (to - from)) as nat)
    } else {
        spaces(cols as nat)
    }
}

/// The text of all spans, laid end to end.
pub open spec fn text_of(spans: Seq<(Style, Seq<char>)>) -> Seq<char> {
    spans.map_values(|span: (Style, Seq<char>)| span.1).flatten()
}

/// Merging neither loses nor adds text.
pub proof fn lemma_merged_keeps_text(cells: Seq<(Style, Seq<char>)>)
    ensures
        text_of(merged(cells)) == text_of(cells),
    decreases cells.len(),
{
    let texts = |span: (Style, Seq<char>)| span.1;
    if cells.len() > 0 {
        let before = merged(cells.drop_last());
        let cell = cells.last();
        lemma_merged_keeps_text(cells.drop_last());
        assert(cells.map_values(texts) =~= cells.drop_last().map_values(texts).push(cell.1));
        cells.drop_last().map_values(texts).lemma_flatten_push(cell.1);
        if before.len() > 0 && before.last().0 == cell.0 {
            let joined = (cell.0, before.last().1 + cell.1);
            let kept = before.drop_last();
            assert(before.map_values(texts) =~= kept.map_values(texts).push(before.last().1));
            kept.map_values(texts).lemma_flatten_push(before.last().1);
            assert(kept.push(joined).map_values(texts) =~= kept.map_values(texts).push(joined.1));
            kept.map_values(texts).lemma_flatten_push(joined.1);
            assert(text_of(merged(cells)) =~= text_of(cells));
        } else {
            assert(before.push(cell).map_values(texts) =~= before.map_values(texts).push(cell.1));
            before.map_values(texts).lemma_flatten_push(cell.1);
        }
    }
}

/// The text of a row of cells with one more cell at its end.
proof fn lemma_text_of_push(cells: Seq<(Style, Seq<char>)>, cell: (Style, Seq<char>))
    ensures
        text_of(cells.push(cell)) == text_of(cells) + cell.1,
{
    let texts = |span: (Style, Seq<char>)| span.1;
    assert(cells.push(cell).map_values(texts) =~= cells.map_values(texts).push(cell.1));
    cells.map_values(texts).lemma_flatten_push(cell.1);
}

/// The cells of a row hold the text of the line's clusters in the window
/// and blanks, whatever the styles and wherever the cursor.
pub proof fn lemma_cells_show_window(
    line: Seq<char>,
    styles: Seq<Style>,
    left: usize,
    cols: usize,
    cursor_column: Option<usize>,
)
    ensures
        text_of(row_cells(line, styles, left, cols, cursor_column)) == window_text(
            line,
            left as int,
            cols as int,
        ),
    decreases cols,
{
    let clusters = grapheme_clusters(line);
    let cells = row_cells(line, styles, left, cols, cursor_column);
    if cols == 0 {
        assert(cells =~= Seq::empty());
        assert(text_of(cells) =~= Seq::<char>::empty());
        assert(spaces(0) =~= Seq::<char>::empty());
    } else {
        let shorter = (cols - 1) as usize;
        let before = row_cells(line, styles, left, shorter, cursor_column);
        let last = cell(line, styles, left + cols - 1, cursor_column);
        lemma_cells_show_window(line, styles, left, shorter, cursor_column);
        assert(cells =~= before.push(last));
        lemma_text_of_push(before, last);
        let column = left + cols - 1;
        if column < clusters.len() {
            assert(clusters.subrange(left as int, column + 1) =~= clusters.subrange(
                left as int,
                column,
            ).push(clusters[column]));
            clusters.subrange(left as int, column).lemma_flatten_push(clusters[column]);
            assert(spaces(0) =~= Seq::<char>::empty());
            if shorter == 0 {
                assert(clusters.subrange(left as int, column) =~= Seq::empty());
            }
            assert(text_of(cells) =~= window_text(line, left as int, cols as int));
        } else {
            let shown = window_text(line, left as int, shorter as int);
            let from = if left <= clusters.len() {
                left as int
            } else {
                clusters.len() as int
            };
            let to = clusters.len() as int;
            if from < to {
                assert(spaces((shorter - (to - from)) as nat).push(' ') =~= spaces(
                    (cols - (to - from)) as nat,
                ));
            } else {
                assert(spaces(shorter as nat).push(' ') =~= spaces(cols as nat));
            }
            assert(text_of(cells) =~= window_text(line, left as int, cols as int));
        }
    }
}

/// What is drawn in a row is the text of the line in the window, filled up
/// with blanks: never text from behind the end of the line, and never
/// anything the line does not hold, whatever the tokens were.
pub proof fn lemma_row_shows_window(
    line: Seq<char>,
    styles: Seq<Style>,
    left: usize,
    cols: usize,
    cursor_column: Option<usize>,
)
    ensures
        text_of(merged(row_cells(line, styles, left, cols, cursor_column))) == window_text(
            line,
            left as int,
            cols as int,
        ),
{
    lemma_merged_keeps_text(row_cells(line, styles, left, cols, cursor_column));
    lemma_cells_show_window(line, styles, left, cols, cursor_column);
}

/// Draws each run of neighbouring cells in one style together into one
/// span.
pub fn merge_spans(cells: Vec<StyledSpan>) -> (spans: Vec<StyledSpan>)
    ensures
        spans_of(spans@) == merged(spans_of(cells@)),
{
    let ghost all = spans_of(cells@);
    let mut spans: Vec<StyledSpan> = Vec::new();
    let mut i: usize = 0;
    proof {
        assert(all.take(0) =~= Seq::empty());
        assert(spans_of(spans@) =~= Seq::empty());
    }
    while i < cells.len()
        invariant
            i <= cells.len(),
            all == spans_of(cells@),
            spans_of(spans@) == merged(all.take(i as int)),
        decreases cells.len() - i,
    {
        let ghost before = spans_of(spans@);
        proof {
            assert(all.take(i + 1).drop_last() =~= all.take(i as int));
            assert(all.take(i + 1).last() == cells[i as int]@);
        }
        let style = cells[i].style;
        let count = spans.len();
        if count > 0 && spans[count - 1].style == style {
            let last = spans.pop().unwrap();
            let mut text = last.text;
            text.append(cells[i].text.as_str());
            spans.push(StyledSpan { style, text });
            proof {
                assert(spans_of(spans@) =~= before.drop_last().push(
                    (style, before.last().1 + cells[i as int]@.1),
                ));
            }
        } else {
            spans.push(StyledSpan { style, text: cells[i].text.clone() });
            proof {
                assert(spans_of(spans@) =~= before.push(cells[i as int]@));
            }
        }
        i = i + 1;
    }
    proof {
        assert(all.take(cells.len() as int) =~= all);
    }
    spans
}

/// Lays out the cells of a screen row that shows `cols` columns of `line`
/// from column `left` on, one span for each cell.
pub fn cells_of_row(
    line: &str,
    styles: &Vec<Style>,
    left: usize,
    cols: usize,
    cursor_column: Option<usize>,
) -> (cells: Vec<StyledSpan>)
    ensures
        spans_of(cells@) == row_cells(line@, styles@, left, cols, cursor_column),
{
    let clusters = segment(line);
    let count = clusters.len();
    let ghost all = texts_of(clusters@);
    let shown_from = if left <= count {
        left
    } else {
        count
    };
    // The place of the next cluster's first `char`; a place too far out to
    // count has no style either way.
    let mut offset = concat_range(&clusters, 0, shown_from).as_str().unicode_len();
    let mut cells: Vec<StyledSpan> = Vec::new();
    let mut j: usize = 0;
    while j < cols
        invariant
            j <= cols,
            count == clusters.len(),
            all == texts_of(clusters@),
            all == grapheme_clusters(line@),
            left < count && j <= count - left ==> offset == if all.take(left + j).flatten().len()
                <= usize::MAX {
                all.take(left + j).flatten().len()
            } else {
                usize::MAX as nat
            },
            spans_of(cells@) == row_cells(line@, styles@, left, j, cursor_column),
        decreases cols - j,
    {
        let ghost before = spans_of(cells@);
        let on_cursor = match cursor_column {
            Some(column) => column >= left && column - left == j,
            None => false,
        };
        let mut text = String::new();
        let mut style = Style::new();
        if left < count && j < count - left {
            let column = left + j;
            text.append(clusters[column].as_str());
            if offset < styles.len() {
                style = styles[offset];
            }
            proof {
                assert(all.take(column + 1) =~= all.take(column as int).push(all[column as int]));
                all.take(column as int).lemma_flatten_push(all[column as int]);
            }
            offset = offset.saturating_add(clusters[column].as_str().unicode_len());
        } else {
            text.push(' ');
        }
        if on_cursor {
            style = Style::for_cursor();
        }
        cells.push(StyledSpan { style, text });
        j = j + 1;
        proof {
            let wanted = row_cells(line@, styles@, left, j, cursor_column);
            assert(spans_of(cells@) =~= before.push((style, text@)));
            assert(wanted =~= before.push(cell(line@, styles@, left + j - 1, cursor_column)));
        }
    }
    cells
}

} // verus!
