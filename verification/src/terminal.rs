//! From styled spans to the text that a terminal with 24-bit colour takes:
//! the spans' text with colour escape codes in front of each span.
//!
//! Styles name colours; a terminal wants red, green and blue. The palette
//! says which colours plain text has, and `rgba` gives the named colours
//! their values. The escape codes themselves are written by the `syntect`
//! crate.

use crate::style::{spans_of, Color, Style, StyledSpan};
use syntect::highlighting::{Color as OutsideColor, FontStyle, Style as OutsideStyle};
use vstd::prelude::*;

verus! {

/// A colour by its red, green and blue parts, and its opacity.
#[derive(Clone, Copy, Debug, PartialEq, Eq, Structural)]
pub struct Rgba {
    pub r: u8,
    pub g: u8,
    pub b: u8,
    pub a: u8,
}

/// A style with every colour spelled out.
#[derive(Clone, Copy, Debug, PartialEq, Eq, Structural)]
pub struct TerminalStyle {
    pub foreground: Rgba,
    pub background: Rgba,
    /// Bit 0 is set for bold text.
    pub font_style: u8,
}

/// The colours of text that no style overrides.
#[derive(Clone, Copy, Debug, PartialEq, Eq, Structural)]
pub struct Palette {
    pub foreground: Rgba,
    pub background: Rgba,
}

/// A run of text in one fully spelled out style.
#[derive(Clone, Debug, PartialEq, Eq)]
pub struct TerminalSpan {
    pub style: TerminalStyle,
    pub text: String,
}

impl View for TerminalSpan {
    type V = (TerminalStyle, Seq<char>);

    open spec fn view(&self) -> (TerminalStyle, Seq<char>) {
        (self.style, self.text@)
    }
}

/// The views of a vector of terminal spans.
pub open spec fn terminal_spans_of(spans: Seq<TerminalSpan>) -> Seq<(TerminalStyle, Seq<char>)> {
    spans.map_values(|span: TerminalSpan| span@)
}

/// The value of a named colour, fully opaque.
pub open spec fn rgba_of(color: Color) -> Rgba {
    match color {
        Color::Black => Rgba { r: 0, g: 0, b: 0, a: 255 },
        Color::Red => Rgba { r: 205, g: 49, b: 49, a: 255 },
        Color::Green => Rgba { r: 13, g: 188, b: 121, a: 255 },
        Color::Yellow => Rgba { r: 229, g: 229, b: 16, a: 255 },
        Color::Blue => Rgba { r: 36, g: 114, b: 200, a: 255 },
        Color::Magenta => Rgba { r: 188, g: 63, b: 188, a: 255 },
        Color::Cyan => Rgba { r: 17, g: 168, b: 205, a: 255 },
        Color::Gray => Rgba { r: 128, g: 128, b: 128, a: 255 },
        Color::White => Rgba { r: 255, g: 255, b: 255, a: 255 },
    }
}

/// `style` with every colour spelled out: the colours it names, and those
/// of the palette where it names none.
pub open spec fn resolved_style(style: Style, palette: Palette) -> TerminalStyle {
    TerminalStyle {
        foreground: match style.foreground {
            Some(color) => rgba_of(color),
            None => palette.foreground,
        },
        background: match style.background {
            Some(color) => rgba_of(color),
            None => palette.background,
        },
        font_style: if style.bold {
            1
        } else {
            0
        },
    }
}

/// The spans with their styles spelled out.
pub open spec fn resolved_spans(spans: Seq<(Style, Seq<char>)>, palette: Palette) -> Seq<
    (TerminalStyle, Seq<char>),
> {
    spans.map_values(|span: (Style, Seq<char>)| (resolved_style(span.0, palette), span.1))
}

/// The text of the spans with the colour escape codes of a 24-bit terminal
/// in front of each span; with `background` set, the codes set the
/// background too.
pub uninterp spec fn terminal_escaped(
    spans: Seq<(TerminalStyle, Seq<char>)>,
    background: bool,
) -> Seq<char>;

/// Formats the spans with `syntect::util::as_24_bit_terminal_escaped`.
/// Trusted: the result is the text named by `terminal_escaped`, a function
/// of the spans' styles and texts and of `background` alone.
#[verifier::external_body]
fn escape(spans: &Vec<TerminalSpan>, background: bool) -> (text: String)
    ensures
        text@ == terminal_escaped(terminal_spans_of(spans@), background),
{
    let color = |c: Rgba| OutsideColor { r: c.r, g: c.g, b: c.b, a: c.a };
    let style = |s: TerminalStyle| OutsideStyle {
        foreground: color(s.foreground),
        background: color(s.background),
        font_style: FontStyle::from_bits_truncate(s.font_style),
    };
    let ranges: Vec<(OutsideStyle, &str)> =
        spans.iter().map(|span| (style(span.style), span.text.as_str())).collect();
    syntect::util::as_24_bit_terminal_escaped(&ranges[..], background)
}

/// The value of a named colour.
pub fn rgba(color: Color) -> (value: Rgba)
    ensures
        value == rgba_of(color),
{
    match color {
        Color::Black => Rgba { r: 0, g: 0, b: 0, a: 255 },
        Color::Red => Rgba { r: 205, g: 49, b: 49, a: 255 },
        Color::Green => Rgba { r: 13, g: 188, b: 121, a: 255 },
        Color::Yellow => Rgba { r: 229, g: 229, b: 16, a: 255 },
        Color::Blue => Rgba { r: 36, g: 114, b: 200, a: 255 },
        Color::Magenta => Rgba { r: 188, g: 63, b: 188, a: 255 },
        Color::Cyan => Rgba { r: 17, g: 168, b: 205, a: 255 },
        Color::Gray => Rgba { r: 128, g: 128, b: 128, a: 255 },
        Color::White => Rgba { r: 255, g: 255, b: 255, a: 255 },
    }
}

/// Spells out every colour of `style`.
pub fn resolve_style(style: Style, palette: Palette) -> (resolved: TerminalStyle)
    ensures
        resolved == resolved_style(style, palette),
{
    TerminalStyle {
        foreground: match style.foreground {
            Some(color) => rgba(color),
            None => palette.foreground,
        },
        background: match style.background {
            Some(color) => rgba(color),
            None => palette.background,
        },
        font_style: if style.bold {
            1
        } else {
            0
        },
    }
}

/// The text to write for `spans` on a terminal with 24-bit colour: each
/// span's text behind the escape codes for its colours.
pub fn terminal_text(spans: &Vec<StyledSpan>, palette: Palette, background: bool) -> (text: String)
    ensures
        text@ == terminal_escaped(resolved_spans(spans_of(spans@), palette), background),
{
    let mut resolved: Vec<TerminalSpan> = Vec::new();
    let mut i: usize = 0;
    while i < spans.len()
        invariant
            i <= spans.len(),
            terminal_spans_of(resolved@) == resolved_spans(spans_of(spans@), palette).take(
                i as int,
            ),
        decreases spans.len() - i,
    {
        let ghost before = terminal_spans_of(resolved@);
        let ghost wanted = resolved_spans(spans_of(spans@), palette);
        let style = resolve_style(spans[i].style, palette);
        let text = spans[i].text.clone();
        proof {
            assert(wanted[i as int] == (style, text@));
            assert(wanted.take(i + 1) =~= wanted.take(i as int).push(wanted[i as int]));
        }
        resolved.push(TerminalSpan { style, text });
        assert(terminal_spans_of(resolved@) =~= before.push((style, text@)));
        i = i + 1;
    }
    assert(resolved_spans(spans_of(spans@), palette).take(spans.len() as int)
        =~= resolved_spans(spans_of(spans@), palette));
    escape(&resolved, background)
}

} // verus!
