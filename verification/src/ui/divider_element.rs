//! The divider under the header: what the current mode is about.

use vstd::prelude::*;
use crate::state::app_state::Mode;
use crate::utils::palette::{Color, Style, plain_style};

verus! {

/// The divider of one mode.
pub struct DividerElement {
    mode: Mode,
}

impl View for DividerElement {
    type V = Mode;

    closed spec fn view(&self) -> Mode {
        self.mode
    }
}

/// The text of the divider in `mode`.
pub open spec fn divider_text(mode: Mode) -> Seq<char> {
    match mode {
        Mode::Read => " \u{25b8} Latest tweets"@,
        Mode::Write => " \u{25b8} Whatcha cooking there? \u{1f440}"@,
    }
}

impl DividerElement {
    /// The divider of `mode`.
    pub fn new(mode: Mode) -> (d: Self)
        ensures
            d@ == mode,
    {
        DividerElement { mode }
    }

    /// The text of the divider.
    pub fn text(&self) -> (s: &'static str)
        ensures
            s@ == divider_text(self@),
    {
        match self.mode {
            Mode::Read => " \u{25b8} Latest tweets",
            Mode::Write => " \u{25b8} Whatcha cooking there? \u{1f440}",
        }
    }

    /// The style of the divider: white on blue.
    pub fn style(&self) -> (s: Style)
        ensures
            s == plain_style().fg(Color::White).bg(Color::Blue),
    {
        Style::plain().fg(Color::White).bg(Color::Blue)
    }
}

} // verus!
