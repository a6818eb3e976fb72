//! The header: the client's title on the left, the logged-in user on the
//! right.

use vstd::prelude::*;
use vstd::string::StringExecFns;
use crate::utils::palette::{Alignment, Color, Line, Span, Style, plain_style};

verus! {

/// The client's title.
pub const TITLE: &'static str = "\u{2726} TWITTER / TUI";

/// The header.
pub struct HeaderElement {
    pub left_widget: Line,
    pub background: Style,
    pub right_widget: Line,
}

impl HeaderElement {
    /// The header for the user `user_tag`: " {title} " on the left, " logged
    /// in as @{user_tag} " on the right, blue and bold on the surface colour.
    pub fn new(user_tag: &str) -> (h: Self)
        ensures
            h.left_widget.spans@.len() == 1,
            h.left_widget.spans@[0].content@ == " "@ + TITLE@ + " "@,
            h.left_widget.spans@[0].style == plain_style(),
            h.left_widget.style == plain_style(),
            h.left_widget.alignment == Alignment::Left,
            h.background == plain_style().bg(Color::Surface).fg(Color::Blue).bold(),
            h.right_widget.spans@.len() == 1,
            h.right_widget.spans@[0].content@ == " logged in as @"@ + user_tag@ + " "@,
            h.right_widget.spans@[0].style == plain_style(),
            h.right_widget.style == plain_style(),
            h.right_widget.alignment == Alignment::Right,
    {
        let mut left = " ".to_owned();
        left.append(TITLE);
        left.append(" ");
        let mut right = " logged in as @".to_owned();
        right.append(user_tag);
        right.append(" ");
        let mut left_spans: Vec<Span> = Vec::new();
        left_spans.push(Span::raw(left));
        let mut right_spans: Vec<Span> = Vec::new();
        right_spans.push(Span::raw(right));
        HeaderElement {
            left_widget: Line { spans: left_spans, style: Style::plain(), alignment: Alignment::Left },
            background: Style::plain().bg(Color::Surface).fg(Color::Blue).bold(),
            right_widget: Line { spans: right_spans, style: Style::plain(), alignment: Alignment::Right },
        }
    }
}

} // verus!
