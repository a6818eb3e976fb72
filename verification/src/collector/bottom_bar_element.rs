//! The collector's bottom bar, its header and its divider.

use vstd::prelude::*;
use vstd::string::StringExecFns;
use crate::collector::app_state::Mode;
use crate::ui::bottom_bar_element::{BottomBarElement as ClientBottomBar, shortcut_views, spans_show_chunk};
use crate::utils::palette::{Alignment, Color, Line, Span, Style, plain_style};

verus! {

/// The collector's shortcuts of read mode.
pub open spec fn collector_read_shortcuts() -> Seq<(Seq<char>, Seq<char>)> {
    seq![("j/k"@, "scroll"@), ("r"@, "retweet"@), ("l"@, "like"@), ("Ctrl+W"@, "write"@), ("q"@, "quit"@)]
}

/// The collector's shortcuts of write mode.
pub open spec fn collector_write_shortcuts() -> Seq<(Seq<char>, Seq<char>)> {
    seq![("Ctrl+Enter"@, "send"@), ("Ctrl+W"@, "cancel"@), ("Ctrl+D"@, "discard"@), ("CTRL+E/J"@, "reply scroll"@)]
}

/// The collector's bottom bar.
pub struct BottomBarElement {
    _private: (),
}

/// The one value of [`BottomBarElement`]: it holds no state.
pub closed spec fn the_bottom_bar() -> BottomBarElement {
    BottomBarElement { _private: () }
}

impl BottomBarElement {
    /// The bottom bar.
    pub fn new() -> (b: Self)
        ensures
            b == the_bottom_bar(),
    {
        BottomBarElement { _private: () }
    }

    /// All shortcuts of `mode` on one row, on the surface colour.
    pub fn line(&self, mode: Mode) -> (l: Line)
        ensures
            spans_show_chunk(l.spans@, if mode == Mode::Read { collector_read_shortcuts() } else { collector_write_shortcuts() }),
            l.style == plain_style().bg(Color::Surface),
            l.alignment == Alignment::Left,
    {
        let mut shortcuts: Vec<(&'static str, &'static str)> = Vec::new();
        match mode {
            Mode::Read => {
                shortcuts.push(("j/k", "scroll"));
                shortcuts.push(("r", "retweet"));
                shortcuts.push(("l", "like"));
                shortcuts.push(("Ctrl+W", "write"));
                shortcuts.push(("q", "quit"));
            },
            Mode::Write => {
                shortcuts.push(("Ctrl+Enter", "send"));
                shortcuts.push(("Ctrl+W", "cancel"));
                shortcuts.push(("Ctrl+D", "discard"));
                shortcuts.push(("CTRL+E/J", "reply scroll"));
            },
        }
        proof {
            let expected = if mode == Mode::Read { collector_read_shortcuts() } else { collector_write_shortcuts() };
            assert(shortcut_views(shortcuts@) =~= expected);
        }
        let spans = ClientBottomBar::create_spans_from_chunk(shortcuts.as_slice());
        Line { spans, style: Style::plain().bg(Color::Surface), alignment: Alignment::Left }
    }
}

/// The collector's divider text.
pub fn divider_text() -> (s: &'static str)
    ensures
        s@ == " \u{25b8} Latest tweets"@,
{
    " \u{25b8} Latest tweets"
}

/// The collector's divider style: muted text on blue.
pub fn divider_style() -> (s: Style)
    ensures
        s == plain_style().fg(Color::TextMute).bg(Color::Blue),
{
    Style::plain().fg(Color::TextMute).bg(Color::Blue)
}

/// The right side of the collector's header for the user `user_tag`.
pub fn header_right_text(user_tag: &str) -> (s: String)
    ensures
        s@ == " logged in as @"@ + user_tag@ + " "@,
{
    let mut s = " logged in as @".to_owned();
    s.append(user_tag);
    s.append(" ");
    s
}

} // verus!
