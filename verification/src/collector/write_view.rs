//! The collector's status bar in write mode.

use vstd::prelude::*;
use crate::utils::palette::{Alignment, Color, Line, Span, Style, plain_style};

verus! {

/// The collector's status bar in write mode.
pub struct StatusBarElement {
    _private: (),
}

/// The one value of [`StatusBarElement`]: it holds no state.
pub closed spec fn the_write_status_bar() -> StatusBarElement {
    StatusBarElement { _private: () }
}

impl StatusBarElement {
    /// The status bar.
    pub fn new() -> (s: Self)
        ensures
            s == the_write_status_bar(),
    {
        StatusBarElement { _private: () }
    }

    /// The status line: " WRITE " in bold, then the editing hint, white on
    /// red.
    pub fn status_line(&self) -> (l: Line)
        ensures
            l.spans@.len() == 2,
            l.spans@[0].content@ == " WRITE "@,
            l.spans@[0].style == plain_style().bold(),
            l.spans@[1].content@ == " insert text normally \u{b7} Ctrl+W to cancel "@,
            l.spans@[1].style == plain_style(),
            l.style == plain_style().bg(Color::Red).fg(Color::White),
            l.alignment == Alignment::Left,
    {
        let mut spans: Vec<Span> = Vec::new();
        spans.push(Span::styled(" WRITE ".to_owned(), Style::plain().bold()));
        spans.push(Span::raw(" insert text normally \u{b7} Ctrl+W to cancel ".to_owned()));
        Line { spans, style: Style::plain().bg(Color::Red).fg(Color::White), alignment: Alignment::Left }
    }
}

} // verus!
