//! Colours and styles of drawn text.

use vstd::prelude::*;

verus! {

/// A terminal colour.
#[derive(Clone, Copy, Debug, PartialEq, Eq, Structural)]
pub enum Color {
    Black,
    Red,
    Green,
    Yellow,
    Blue,
    Magenta,
    Cyan,
    Gray,
    White,
}

/// Which of the terminal's defaults a piece of text overrides.
#[derive(Clone, Copy, Debug, PartialEq, Eq, Structural)]
pub struct Style {
    pub foreground: Option<Color>,
    pub background: Option<Color>,
    pub bold: bool,
}

impl Style {
    /// The style that overrides nothing.
    pub open spec fn plain() -> Style {
        Style { foreground: None, background: None, bold: false }
    }

    /// The style of the cell under the cursor: bold black on white.
    pub open spec fn cursor() -> Style {
        Style { foreground: Some(Color::Black), background: Some(Color::White), bold: true }
    }

    /// This style with the foreground `color`.
    pub open spec fn with_foreground(self, color: Color) -> Style {
        Style { foreground: Some(color), ..self }
    }

    /// This style with the background `color`.
    pub open spec fn with_background(self, color: Color) -> Style {
        Style { background: Some(color), ..self }
    }

    /// A style that overrides nothing.
    pub fn new() -> (style: Style)
        ensures
            style == Style::plain(),
    {
        Style { foreground: None, background: None, bold: false }
    }

    /// This style with the foreground `color`.
    pub fn fg(self, color: Color) -> (style: Style)
        ensures
            style == self.with_foreground(color),
    {
        Style { foreground: Some(color), background: self.background, bold: self.bold }
    }

    /// This style with the background `color`.
    pub fn bg(self, color: Color) -> (style: Style)
        ensures
            style == self.with_background(color),
    {
        Style { foreground: self.foreground, background: Some(color), bold: self.bold }
    }

    /// This style in bold.
    pub fn bold(self) -> (style: Style)
        ensures
            style == (Style { bold: true, ..self }),
    {
        Style { foreground: self.foreground, background: self.background, bold: true }
    }

    /// The style of the cell under the cursor.
    pub fn for_cursor() -> (style: Style)
        ensures
            style == Style::cursor(),
    {
        Style { foreground: Some(Color::Black), background: Some(Color::White), bold: true }
    }
}

impl Default for Style {
    fn default() -> (style: Style)
        ensures
            style == Style::plain(),
    {
        Style::new()
    }
}

/// A run of text in one style.
#[derive(Clone, Debug, PartialEq, Eq)]
pub struct StyledSpan {
    pub style: Style,
    pub text: String,
}

impl View for StyledSpan {
    type V = (Style, Seq<char>);

    open spec fn view(&self) -> (Style, Seq<char>) {
        (self.style, self.text@)
    }
}

/// The views of a vector of spans.
pub open spec fn spans_of(spans: Seq<StyledSpan>) -> Seq<(Style, Seq<char>)> {
    spans.map_values(|span: StyledSpan| span@)
}

} // verus!
