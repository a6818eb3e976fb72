//! The colours and text styles that the client draws with, and the styled
//! text (spans and lines) that its elements produce for the terminal.

use vstd::prelude::*;

verus! {

/// The named colours of the client's theme.
#[derive(Debug, Clone, Copy, PartialEq, Eq, Structural)]
pub enum Color {
    Bg,
    SelectBg,
    Surface,
    Border,
    Text,
    TextDim,
    TextMute,
    White,
    Blue,
    Pink,
    Purple,
    Green,
    Red,
}

/// Whether a style sets, clears, or leaves alone the bold modifier.
#[derive(Debug, Clone, Copy, PartialEq, Eq, Structural)]
pub enum Weight {
    Unset,
    Bold,
    NotBold,
}

/// A text style: optional foreground and background colours and a weight.
#[derive(Debug, Clone, Copy, PartialEq, Eq, Structural)]
pub struct Style {
    pub fg: Option<Color>,
    pub bg: Option<Color>,
    pub weight: Weight,
}

/// How a line is aligned in its area.
#[derive(Debug, Clone, Copy, PartialEq, Eq, Structural)]
pub enum Alignment {
    Unset,
    Left,
    Right,
}

/// A piece of text with one style.
#[derive(Debug, Clone, PartialEq)]
pub struct Span {
    pub content: String,
    pub style: Style,
}

/// A row of spans with a style of its own and an alignment.
#[derive(Debug, Clone, PartialEq)]
pub struct Line {
    pub spans: Vec<Span>,
    pub style: Style,
    pub alignment: Alignment,
}

/// The style that sets nothing.
pub open spec fn plain_style() -> Style {
    Style { fg: None, bg: None, weight: Weight::Unset }
}

impl Style {
    /// The style that sets nothing.
    #[verifier::allow_in_spec]
    pub fn plain() -> Style
        returns
            plain_style(),
    {
        Style { fg: None, bg: None, weight: Weight::Unset }
    }

    /// This style with foreground colour `c`.
    #[verifier::allow_in_spec]
    pub fn fg(self, c: Color) -> Style
        returns
            (Style { fg: Some(c), ..self }),
    {
        Style { fg: Some(c), ..self }
    }

    /// This style with background colour `c`.
    #[verifier::allow_in_spec]
    pub fn bg(self, c: Color) -> Style
        returns
            (Style { bg: Some(c), ..self }),
    {
        Style { bg: Some(c), ..self }
    }

    /// This style, bold.
    #[verifier::allow_in_spec]
    pub fn bold(self) -> Style
        returns
            (Style { weight: Weight::Bold, ..self }),
    {
        Style { weight: Weight::Bold, ..self }
    }

    /// This style, explicitly not bold.
    #[verifier::allow_in_spec]
    pub fn not_bold(self) -> Style
        returns
            (Style { weight: Weight::NotBold, ..self }),
    {
        Style { weight: Weight::NotBold, ..self }
    }
}

impl Span {
    /// A span with the plain style.
    pub fn raw(content: String) -> (s: Span)
        ensures
            s.content == content,
            s.style == plain_style(),
    {
        Span { content, style: Style::plain() }
    }

    /// A span with the given style.
    pub fn styled(content: String, style: Style) -> (s: Span)
        ensures
            s.content == content,
            s.style == style,
    {
        Span { content, style }
    }
}

impl Line {
    /// A line made of `spans`, with the plain style and no alignment.
    pub fn from_spans(spans: Vec<Span>) -> (l: Line)
        ensures
            l.spans == spans,
            l.style == plain_style(),
            l.alignment == Alignment::Unset,
    {
        Line { spans, style: Style::plain(), alignment: Alignment::Unset }
    }
}

} // verus!
