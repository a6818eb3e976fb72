//! The status bar of the read view: the number of fetched posts, or the
//! confirmation of the last action.

use vstd::prelude::*;
use vstd::string::StringExecFns;
use crate::state::app_state::StatusMessage;
use crate::state::read_state::ReadState;
use crate::text::{decimal, push_decimal};
use crate::utils::palette::{Alignment, Color, Line, Span, Style, plain_style};

verus! {

/// The status bar of the read view.
pub struct StatusBarElement;

/// The label, message and colour that announce `m`.
pub open spec fn status_message_styles(m: StatusMessage) -> (Seq<char>, Seq<char>, Color) {
    match m {
        StatusMessage::Liked => ("\u{2665} LIKED"@, "Post liked"@, Color::Pink),
        StatusMessage::Unliked => ("\u{2661} UNLIKED"@, "Like removed"@, Color::Pink),
        StatusMessage::Retweeted => ("\u{21bb} RETWEETED"@, "Post retweeted"@, Color::Purple),
        StatusMessage::AlreadyRetweeted => ("^_^ ALREADY RETWEETED"@, "Post was retweeted already"@, Color::Purple),
        StatusMessage::NewPostAdded => (" \u{2713} SUCCESS "@, "New post added"@, Color::Green),
    }
}

/// The text of the default status: the count, phrased twice over as the
/// client has always shown it.
pub open spec fn default_status_text(tweet_count: nat) -> Seq<char> {
    " fetched "@ + (" fetched "@ + decimal(tweet_count) + " posts"@) + " posts "@
}

/// The style of a whole status line on `bg`.
pub open spec fn status_line_style(bg: Color) -> Style {
    plain_style().fg(Color::White).bg(bg)
}

impl StatusBarElement {
    /// The label, message and colour that announce `status_message`.
    pub fn get_status_message_styles(status_message: &StatusMessage) -> (r: (&'static str, &'static str, Color))
        ensures
            (r.0@, r.1@, r.2) == status_message_styles(*status_message),
    {
        match status_message {
            StatusMessage::Liked => ("\u{2665} LIKED", "Post liked", Color::Pink),
            StatusMessage::Unliked => ("\u{2661} UNLIKED", "Like removed", Color::Pink),
            StatusMessage::Retweeted => ("\u{21bb} RETWEETED", "Post retweeted", Color::Purple),
            StatusMessage::AlreadyRetweeted => ("^_^ ALREADY RETWEETED", "Post was retweeted already", Color::Purple),
            StatusMessage::NewPostAdded => (" \u{2713} SUCCESS ", "New post added", Color::Green),
        }
    }

    /// The status shown when there is no message: " READ " in bold, then the
    /// count, white on blue.
    pub fn render_default_status(tweet_count: usize) -> (l: Line)
        ensures
            l.spans@.len() == 2,
            l.spans@[0].content@ == " READ "@,
            l.spans@[0].style == plain_style().bold(),
            l.spans@[1].content@ == default_status_text(tweet_count as nat),
            l.spans@[1].style == plain_style(),
            l.style == status_line_style(Color::Blue),
            l.alignment == Alignment::Left,
    {
        let mut inner = " fetched ".to_owned();
        push_decimal(&mut inner, tweet_count as u64);
        inner.append(" posts");
        let mut text = " fetched ".to_owned();
        text.append(inner.as_str());
        text.append(" posts ");
        let mut spans: Vec<Span> = Vec::new();
        spans.push(Span::styled(" READ ".to_owned(), Style::plain().bold()));
        spans.push(Span::raw(text));
        Line { spans, style: Style::plain().fg(Color::White).bg(Color::Blue), alignment: Alignment::Left }
    }

    /// The status that announces a message: the label in bold, then the
    /// message, white on `color`.
    pub fn render_custom_status(style: (&str, &str, Color)) -> (l: Line)
        ensures
            l.spans@.len() == 2,
            l.spans@[0].content@ == " "@ + style.0@ + " "@,
            l.spans@[0].style == plain_style().bold(),
            l.spans@[1].content@ == " "@ + style.1@ + " "@,
            l.spans@[1].style == plain_style(),
            l.style == status_line_style(style.2),
            l.alignment == Alignment::Left,
    {
        let (label, message, color) = style;
        let mut first = " ".to_owned();
        first.append(label);
        first.append(" ");
        let mut second = " ".to_owned();
        second.append(message);
        second.append(" ");
        let mut spans: Vec<Span> = Vec::new();
        spans.push(Span::styled(first, Style::plain().bold()));
        spans.push(Span::raw(second));
        Line { spans, style: Style::plain().fg(Color::White).bg(color), alignment: Alignment::Left }
    }

    /// The status line for `read_state`: its message if it has one, else the
    /// count of its posts.
    pub fn status_line(&self, read_state: &ReadState) -> (l: Line)
        ensures
            match read_state@.status_message {
                Some(m) => {
                    let (label, message, color) = status_message_styles(m);
                    &&& l.spans@.len() == 2
                    &&& l.spans@[0].content@ == " "@ + label + " "@
                    &&& l.spans@[1].content@ == " "@ + message + " "@
                    &&& l.style == status_line_style(color)
                },
                None => {
                    &&& l.spans@.len() == 2
                    &&& l.spans@[0].content@ == " READ "@
                    &&& l.spans@[1].content@ == default_status_text(read_state@.tweets.len())
                    &&& l.style == status_line_style(Color::Blue)
                },
            },
            l.spans@[0].style == plain_style().bold(),
            l.spans@[1].style == plain_style(),
            l.alignment == Alignment::Left,
    {
        match read_state.status_message() {
            Some(status_message) => {
                let style = Self::get_status_message_styles(status_message);
                Self::render_custom_status(style)
            },
            None => Self::render_default_status(read_state.tweet_count()),
        }
    }
}

} // verus!
