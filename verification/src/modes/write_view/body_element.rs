//! The editor of a new post: which part has the focus, the publishing
//! options, and what the keys on it ask for. The text itself is edited by the
//! terminal's input widget, which the keys are passed on to.

use vstd::prelude::*;
use vstd::string::StringExecFns;
use crate::api::twitter::models::{CreatePostOptions, default_post_options};
use crate::keys::{KeyCode, KeyEvent, KeyModifiers};
use crate::state::action::Action;
use crate::utils::palette::{Color, Line, Span, Style, plain_style};

verus! {

/// The part of the editor that has the focus: the text, or one option.
#[derive(Debug, Clone, Copy, PartialEq, Eq, Structural)]
pub enum OptionFocus {
    Input,
    ShareWithFollowers,
    PaidPartnership,
    Promoted,
}

/// The editor's options and focus.
#[derive(Debug, Clone)]
pub struct BodyElement {
    options: CreatePostOptions,
    focused_option: OptionFocus,
}

/// The abstract content of a [`BodyElement`].
pub struct BodyView {
    pub options: CreatePostOptions,
    pub focused_option: OptionFocus,
}

impl View for BodyElement {
    type V = BodyView;

    closed spec fn view(&self) -> BodyView {
        BodyView { options: self.options, focused_option: self.focused_option }
    }
}

/// What a key does in the editor.
#[derive(Debug, Clone, PartialEq)]
pub enum WriteKeyOutcome {
    /// The key asks for this action.
    Submit(Action),
    /// The key goes to the text input.
    EditInput,
    /// The key was handled, or ignored.
    Nothing,
}

/// The focus after Tab.
pub open spec fn next_focus(f: OptionFocus) -> OptionFocus {
    match f {
        OptionFocus::Input => OptionFocus::ShareWithFollowers,
        OptionFocus::ShareWithFollowers => OptionFocus::PaidPartnership,
        OptionFocus::PaidPartnership => OptionFocus::Promoted,
        OptionFocus::Promoted => OptionFocus::Input,
    }
}

/// The focus after Shift+Tab.
pub open spec fn previous_focus(f: OptionFocus) -> OptionFocus {
    match f {
        OptionFocus::Input => OptionFocus::Promoted,
        OptionFocus::ShareWithFollowers => OptionFocus::Input,
        OptionFocus::PaidPartnership => OptionFocus::ShareWithFollowers,
        OptionFocus::Promoted => OptionFocus::PaidPartnership,
    }
}

/// The options after toggling the one that has the focus `f`.
pub open spec fn toggled_options(o: CreatePostOptions, f: OptionFocus) -> CreatePostOptions {
    match f {
        OptionFocus::Input => o,
        OptionFocus::ShareWithFollowers => CreatePostOptions { share_with_followers: !o.share_with_followers, ..o },
        OptionFocus::PaidPartnership => CreatePostOptions { paid_partnership: !o.paid_partnership, ..o },
        OptionFocus::Promoted => CreatePostOptions { nullcast: !o.nullcast, ..o },
    }
}

/// Whether `key` moves the focus forward: Tab, or Shift+BackTab.
pub open spec fn is_focus_next_key(key: KeyEvent) -> bool {
    ||| key == KeyEvent::new(KeyCode::Tab, KeyModifiers::Empty)
    ||| key == KeyEvent::new(KeyCode::BackTab, KeyModifiers::Shift)
}

/// Whether `key` moves the focus back: Shift+Tab, or BackTab.
pub open spec fn is_focus_previous_key(key: KeyEvent) -> bool {
    ||| key == KeyEvent::new(KeyCode::Tab, KeyModifiers::Shift)
    ||| key == KeyEvent::new(KeyCode::BackTab, KeyModifiers::Empty)
}

/// What a key does in the editor, before the text it may publish is known.
#[derive(Debug, Clone, Copy, PartialEq, Eq, Structural)]
pub enum WriteKeyKind {
    /// The key publishes the text.
    Submit,
    /// The key goes to the text input.
    EditInput,
    /// The key was handled, or ignored.
    Nothing,
}

/// The editor after `key`, and what the key does.
pub open spec fn write_key_step(v: BodyView, key: KeyEvent) -> (BodyView, WriteKeyKind) {
    if is_focus_next_key(key) {
        (BodyView { focused_option: next_focus(v.focused_option), ..v }, WriteKeyKind::Nothing)
    } else if is_focus_previous_key(key) {
        (BodyView { focused_option: previous_focus(v.focused_option), ..v }, WriteKeyKind::Nothing)
    } else if key == KeyEvent::new(KeyCode::Char(' '), KeyModifiers::Empty) && v.focused_option != OptionFocus::Input {
        (BodyView { options: toggled_options(v.options, v.focused_option), ..v }, WriteKeyKind::Nothing)
    } else if key == KeyEvent::new(KeyCode::Char('s'), KeyModifiers::Control) {
        (v, WriteKeyKind::Submit)
    } else if v.focused_option == OptionFocus::Input {
        (v, WriteKeyKind::EditInput)
    } else {
        (v, WriteKeyKind::Nothing)
    }
}

/// The colour of the options box: dimmed while the text has the focus.
pub open spec fn options_color_of(f: OptionFocus) -> Color {
    if f == OptionFocus::Input { Color::TextDim } else { Color::Pink }
}

/// The colour of the text box: pink while it has the focus.
pub open spec fn input_color_of(f: OptionFocus) -> Color {
    if f == OptionFocus::Input { Color::Pink } else { Color::TextDim }
}

/// The checkbox of an option.
pub open spec fn checkbox(checked: bool) -> Seq<char> {
    if checked { "[x]"@ } else { "[ ]"@ }
}

/// The style of an option's line: blue and bold when it has the focus.
pub open spec fn option_style(focused: bool) -> Style {
    if focused { plain_style().fg(Color::Blue).bold() } else { plain_style() }
}

impl Default for BodyElement {
    fn default() -> (b: Self)
        ensures
            b@.options == default_post_options(),
            b@.focused_option == OptionFocus::Input,
    {
        BodyElement { options: CreatePostOptions::default(), focused_option: OptionFocus::Input }
    }
}

impl BodyElement {
    /// The part that has the focus.
    pub fn focused_option(&self) -> (f: OptionFocus)
        ensures
            f == self@.focused_option,
    {
        self.focused_option
    }

    /// The options the post will be published with.
    pub fn options(&self) -> (o: CreatePostOptions)
        ensures
            o == self@.options,
    {
        self.options
    }

    /// Moves the focus forward.
    pub fn focus_next(&mut self)
        ensures
            final(self)@ == (BodyView { focused_option: next_focus(old(self)@.focused_option), ..old(self)@ }),
    {
        self.focused_option = match self.focused_option {
            OptionFocus::Input => OptionFocus::ShareWithFollowers,
            OptionFocus::ShareWithFollowers => OptionFocus::PaidPartnership,
            OptionFocus::PaidPartnership => OptionFocus::Promoted,
            OptionFocus::Promoted => OptionFocus::Input,
        };
    }

    /// Moves the focus back.
    pub fn focus_previous(&mut self)
        ensures
            final(self)@ == (BodyView { focused_option: previous_focus(old(self)@.focused_option), ..old(self)@ }),
    {
        self.focused_option = match self.focused_option {
            OptionFocus::Input => OptionFocus::Promoted,
            OptionFocus::ShareWithFollowers => OptionFocus::Input,
            OptionFocus::PaidPartnership => OptionFocus::ShareWithFollowers,
            OptionFocus::Promoted => OptionFocus::PaidPartnership,
        };
    }

    /// Toggles the option that has the focus; nothing when the text has it.
    pub fn toggle_focused_option(&mut self)
        ensures
            final(self)@ == (BodyView { options: toggled_options(old(self)@.options, old(self)@.focused_option), ..old(self)@ }),
            final(self)@.options.share_with_followers
                == (old(self)@.options.share_with_followers != (old(self)@.focused_option == OptionFocus::ShareWithFollowers)),
            final(self)@.options.paid_partnership
                == (old(self)@.options.paid_partnership != (old(self)@.focused_option == OptionFocus::PaidPartnership)),
            final(self)@.options.nullcast
                == (old(self)@.options.nullcast != (old(self)@.focused_option == OptionFocus::Promoted)),
    {
        match self.focused_option {
            OptionFocus::Input => {},
            OptionFocus::ShareWithFollowers => {
                self.options.share_with_followers = !self.options.share_with_followers;
            },
            OptionFocus::PaidPartnership => {
                self.options.paid_partnership = !self.options.paid_partnership;
            },
            OptionFocus::Promoted => {
                self.options.nullcast = !self.options.nullcast;
            },
        }
    }

    /// The action that publishes `text` with the current options.
    pub fn submit_action(&self, text: &str) -> (a: Action)
        ensures
            a matches Action::CreatePost { text: t, options } && t@ == text@ && options == self@.options,
    {
        Action::CreatePost { text: text.to_owned(), options: self.options }
    }

    /// What `key` does, with `text` in the input: Tab and Shift+BackTab move
    /// the focus forward, Shift+Tab and BackTab move it back, Space toggles
    /// the focused option, Ctrl+s publishes; any other key goes to the input
    /// while the text has the focus.
    pub fn handle_key_event(&mut self, key: KeyEvent, text: &str) -> (r: WriteKeyOutcome)
        ensures
            final(self)@ == write_key_step(old(self)@, key).0,
            match write_key_step(old(self)@, key).1 {
                WriteKeyKind::Submit => r matches WriteKeyOutcome::Submit(Action::CreatePost { text: t, options })
                    && t@ == text@ && options == old(self)@.options,
                WriteKeyKind::EditInput => r == WriteKeyOutcome::EditInput,
                WriteKeyKind::Nothing => r == WriteKeyOutcome::Nothing,
            },
            key == KeyEvent::new(KeyCode::Char('s'), KeyModifiers::Control) ==> {
                &&& final(self)@ == old(self)@
                &&& r matches WriteKeyOutcome::Submit(Action::CreatePost { text: t, options })
                &&& t@ == text@
                &&& options == old(self)@.options
            },
    {
        if key == KeyEvent::new(KeyCode::Tab, KeyModifiers::Empty) || key == KeyEvent::new(KeyCode::BackTab, KeyModifiers::Shift) {
            self.focus_next();
            WriteKeyOutcome::Nothing
        } else if key == KeyEvent::new(KeyCode::Tab, KeyModifiers::Shift) || key == KeyEvent::new(KeyCode::BackTab, KeyModifiers::Empty) {
            self.focus_previous();
            WriteKeyOutcome::Nothing
        } else if key == KeyEvent::new(KeyCode::Char(' '), KeyModifiers::Empty) && self.focused_option != OptionFocus::Input {
            self.toggle_focused_option();
            WriteKeyOutcome::Nothing
        } else if key == KeyEvent::new(KeyCode::Char('s'), KeyModifiers::Control) {
            WriteKeyOutcome::Submit(self.submit_action(text))
        } else if self.focused_option == OptionFocus::Input {
            WriteKeyOutcome::EditInput
        } else {
            WriteKeyOutcome::Nothing
        }
    }

    /// Puts the default options back and gives the focus to the text.
    pub fn reset(&mut self)
        ensures
            final(self)@.options == default_post_options(),
            final(self)@.focused_option == OptionFocus::Input,
    {
        self.options = CreatePostOptions::default();
        self.focused_option = OptionFocus::Input;
    }

    /// The colour of the options box.
    pub fn options_color(&self) -> (c: Color)
        ensures
            c == options_color_of(self@.focused_option),
    {
        if self.focused_option == OptionFocus::Input { Color::TextDim } else { Color::Pink }
    }

    /// The colour of the text box.
    pub fn input_color(&self) -> (c: Color)
        ensures
            c == input_color_of(self@.focused_option),
    {
        if self.focused_option == OptionFocus::Input { Color::Pink } else { Color::TextDim }
    }

    /// Whether the terminal cursor is shown in the text box.
    pub fn shows_cursor(&self) -> (b: bool)
        ensures
            b == (self@.focused_option == OptionFocus::Input),
    {
        self.focused_option == OptionFocus::Input
    }

    /// The three option lines: " [x] Share with followers", " [ ] Paid
    /// partnership", " [ ] Promoted" and so on, the focused one blue and bold.
    pub fn draw_options(&self) -> (lines: Vec<Line>)
        ensures
            lines@.len() == 3,
            lines@[0].spans@.len() == 1,
            lines@[0].spans@[0].content@ == " "@ + checkbox(self@.options.share_with_followers) + " "@ + "Share with followers"@,
            lines@[1].spans@.len() == 1,
            lines@[1].spans@[0].content@ == " "@ + checkbox(self@.options.paid_partnership) + " "@ + "Paid partnership"@,
            lines@[2].spans@.len() == 1,
            lines@[2].spans@[0].content@ == " "@ + checkbox(self@.options.nullcast) + " "@ + "Promoted"@,
            lines@[0].style == option_style(self@.focused_option == OptionFocus::ShareWithFollowers),
            lines@[1].style == option_style(self@.focused_option == OptionFocus::PaidPartnership),
            lines@[2].style == option_style(self@.focused_option == OptionFocus::Promoted),
            forall|i: int| 0 <= i < 3 ==> lines@[i].spans@[0].style == plain_style(),
    {
        let mut lines: Vec<Line> = Vec::new();
        lines.push(Self::option_line(
            self.options.share_with_followers,
            "Share with followers",
            self.focused_option == OptionFocus::ShareWithFollowers,
        ));
        lines.push(Self::option_line(
            self.options.paid_partnership,
            "Paid partnership",
            self.focused_option == OptionFocus::PaidPartnership,
        ));
        lines.push(Self::option_line(self.options.nullcast, "Promoted", self.focused_option == OptionFocus::Promoted));
        lines
    }

    fn option_line(checked: bool, label: &str, focused: bool) -> (l: Line)
        ensures
            l.spans@.len() == 1,
            l.spans@[0].content@ == " "@ + checkbox(checked) + " "@ + label@,
            l.spans@[0].style == plain_style(),
            l.style == option_style(focused),
    {
        let mut text = " ".to_owned();
        text.append(if checked { "[x]" } else { "[ ]" });
        text.append(" ");
        text.append(label);
        let style = if focused { Style::plain().fg(Color::Blue).bold() } else { Style::plain() };
        let mut spans: Vec<Span> = Vec::new();
        spans.push(Span::raw(text));
        Line { spans, style, alignment: crate::utils::palette::Alignment::Unset }
    }
}

/// Moving the focus forward then back, or back then forward, returns to the
/// same part; four moves forward go round.
pub proof fn law_focus_cycle(f: OptionFocus)
    ensures
        previous_focus(next_focus(f)) == f,
        next_focus(previous_focus(f)) == f,
        next_focus(next_focus(next_focus(next_focus(f)))) == f,
{
}

/// Toggling the same option twice gives the options back.
pub proof fn law_toggle_twice(o: CreatePostOptions, f: OptionFocus)
    ensures
        toggled_options(toggled_options(o, f), f) == o,
{
}

/// Ctrl+s publishes whatever has the focus, the text box included, and
/// changes nothing in the editor.
pub proof fn law_ctrl_s_publishes(v: BodyView)
    ensures
        write_key_step(v, KeyEvent::new(KeyCode::Char('s'), KeyModifiers::Control)) == (v, WriteKeyKind::Submit),
{
}

/// Space on an option flips that option and keeps the other two; on the text
/// box it changes no option.
pub proof fn law_toggle_flips_the_focused_option(o: CreatePostOptions)
    ensures
        toggled_options(o, OptionFocus::Input) == o,
        toggled_options(o, OptionFocus::ShareWithFollowers).share_with_followers != o.share_with_followers,
        toggled_options(o, OptionFocus::ShareWithFollowers).paid_partnership == o.paid_partnership,
        toggled_options(o, OptionFocus::ShareWithFollowers).nullcast == o.nullcast,
        toggled_options(o, OptionFocus::PaidPartnership).paid_partnership != o.paid_partnership,
        toggled_options(o, OptionFocus::PaidPartnership).share_with_followers == o.share_with_followers,
        toggled_options(o, OptionFocus::PaidPartnership).nullcast == o.nullcast,
        toggled_options(o, OptionFocus::Promoted).nullcast != o.nullcast,
        toggled_options(o, OptionFocus::Promoted).share_with_followers == o.share_with_followers,
        toggled_options(o, OptionFocus::Promoted).paid_partnership == o.paid_partnership,
{
}

/// Space with an option focused flips that option in the editor and keeps the
/// focus; the key asks nothing.
pub proof fn law_space_toggles_focused_option(v: BodyView)
    requires
        v.focused_option != OptionFocus::Input,
    ensures
        ({
            let (w, kind) = write_key_step(v, KeyEvent::new(KeyCode::Char(' '), KeyModifiers::Empty));
            &&& kind == WriteKeyKind::Nothing
            &&& w.focused_option == v.focused_option
            &&& v.focused_option == OptionFocus::ShareWithFollowers ==> w.options.share_with_followers != v.options.share_with_followers
                && w.options.paid_partnership == v.options.paid_partnership && w.options.nullcast == v.options.nullcast
            &&& v.focused_option == OptionFocus::PaidPartnership ==> w.options.paid_partnership != v.options.paid_partnership
                && w.options.share_with_followers == v.options.share_with_followers && w.options.nullcast == v.options.nullcast
            &&& v.focused_option == OptionFocus::Promoted ==> w.options.nullcast != v.options.nullcast
                && w.options.share_with_followers == v.options.share_with_followers && w.options.paid_partnership == v.options.paid_partnership
        }),
{
}

} // verus!
