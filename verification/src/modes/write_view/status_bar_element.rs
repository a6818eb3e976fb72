//! The status bar of the write view.

use vstd::prelude::*;
use crate::state::app_state::StatusMessage;
use crate::state::write_state::WriteState;
use crate::utils::palette::{Alignment, Color, Line, Span, Style, plain_style};

verus! {

/// The status bar of the write view.
pub struct StatusBarElement;

/// The text of the write view's status bar: the confirmation of a new post,
/// or the editing hint.
pub open spec fn write_status_texts(m: Option<StatusMessage>) -> (Seq<char>, Seq<char>) {
    if m == Some(StatusMessage::NewPostAdded) {
        (" \u{2713} SUCCESS "@, "New post added! "@)
    } else {
        (" WRITE "@, " insert text normally \u{b7} Ctrl+W to cancel "@)
    }
}

/// The background of the write view's status bar.
pub open spec fn write_status_bg(m: Option<StatusMessage>) -> Color {
    if m == Some(StatusMessage::NewPostAdded) { Color::Green } else { Color::Red }
}

impl StatusBarElement {
    /// The status line for `write_state`: the confirmation when a new post
    /// was added, else the editing hint; the label bold, white on green or
    /// red.
    pub fn status_line(&self, write_state: &WriteState) -> (l: Line)
        ensures
            l.spans@.len() == 2,
            l.spans@[0].content@ == write_status_texts(write_state@).0,
            l.spans@[0].style == plain_style().bold(),
            l.spans@[1].content@ == write_status_texts(write_state@).1,
            l.spans@[1].style == plain_style(),
            l.style == plain_style().fg(Color::White).bg(write_status_bg(write_state@)),
            l.alignment == Alignment::Left,
    {
        let success = match write_state.status_message() {
            Some(m) => match m {
                StatusMessage::NewPostAdded => true,
                _ => false,
            },
            None => false,
        };
        let mut spans: Vec<Span> = Vec::new();
        if success {
            spans.push(Span::styled(" \u{2713} SUCCESS ".to_owned(), Style::plain().bold()));
            spans.push(Span::raw("New post added! ".to_owned()));
            Line { spans, style: Style::plain().fg(Color::White).bg(Color::Green), alignment: Alignment::Left }
        } else {
            spans.push(Span::styled(" WRITE ".to_owned(), Style::plain().bold()));
            spans.push(Span::raw(" insert text normally \u{b7} Ctrl+W to cancel ".to_owned()));
            Line { spans, style: Style::plain().fg(Color::White).bg(Color::Red), alignment: Alignment::Left }
        }
    }
}

} // verus!
