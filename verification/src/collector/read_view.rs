//! The collector's read view: the list of posts and its status bar.

use vstd::prelude::*;
use vstd::string::StringExecFns;
use crate::collector::tweet_widget::{Tweet, TweetState, TweetWidget, same_post};
use crate::keys::{KeyCode, KeyEvent, KeyModifiers};
use crate::modes::read_view::body_element::{TWEET_HEIGHT, scroll_offset, visible_count, visible_len};
use crate::text::{decimal, push_decimal};
use crate::utils::palette::{Alignment, Color, Line, Span, Style, plain_style};

verus! {

/// The collector's list of posts, with the position of the selected one.
#[derive(Debug, Clone)]
pub struct BodyElement {
    tweets: Vec<Tweet>,
    current_list_index: usize,
}

/// The abstract content of a [`BodyElement`].
pub struct BodyView {
    pub tweets: Seq<Tweet>,
    pub current_list_index: nat,
}

impl View for BodyElement {
    type V = BodyView;

    closed spec fn view(&self) -> BodyView {
        BodyView { tweets: self.tweets@, current_list_index: self.current_list_index as nat }
    }
}

/// `i` kept at most `len`: the collector lets the selection go one past the
/// last post.
pub open spec fn collector_clamp(i: nat, len: nat) -> nat {
    if i <= len { i } else { len }
}

impl BodyElement {
    /// The list of `tweets`, the first one selected.
    pub fn with_tweets(tweets: Vec<Tweet>) -> (b: Self)
        ensures
            b@.tweets == tweets@,
            b@.current_list_index == 0,
    {
        BodyElement { tweets, current_list_index: 0 }
    }

    /// Selects the first post again.
    pub fn reset(&mut self)
        ensures
            final(self)@.tweets == old(self)@.tweets,
            final(self)@.current_list_index == 0,
    {
        self.current_list_index = 0;
    }

    /// Moves the selection up, at most to the length of the list.
    pub fn move_list_index_up(&mut self)
        ensures
            final(self)@.tweets == old(self)@.tweets,
            final(self)@.current_list_index == collector_clamp(
                if old(self)@.current_list_index == 0 { 0 } else { (old(self)@.current_list_index - 1) as nat },
                old(self)@.tweets.len(),
            ),
    {
        let cursor_moved_top = self.current_list_index.saturating_sub(1);
        self.current_list_index = self.clamp_list_index(cursor_moved_top);
    }

    /// Moves the selection down, at most to the length of the list.
    pub fn move_list_index_down(&mut self)
        ensures
            final(self)@.tweets == old(self)@.tweets,
            final(self)@.current_list_index == collector_clamp(
                if old(self)@.current_list_index == usize::MAX { usize::MAX as nat } else { old(self)@.current_list_index + 1 },
                old(self)@.tweets.len(),
            ),
    {
        let cursor_moved_down = self.current_list_index.saturating_add(1);
        self.current_list_index = self.clamp_list_index(cursor_moved_down);
    }

    /// `new_list_index` kept at most the length of the list.
    pub fn clamp_list_index(&self, new_list_index: usize) -> (r: usize)
        ensures
            r == collector_clamp(new_list_index as nat, self@.tweets.len()),
    {
        if new_list_index <= self.tweets.len() { new_list_index } else { self.tweets.len() }
    }

    /// j moves the selection down, k moves it up; other keys do nothing.
    pub fn handle_key_event(&mut self, key: KeyEvent)
        ensures
            final(self)@.tweets == old(self)@.tweets,
            key == KeyEvent::new(KeyCode::Char('j'), KeyModifiers::Empty) ==> final(self)@.current_list_index == collector_clamp(
                if old(self)@.current_list_index == usize::MAX { usize::MAX as nat } else { old(self)@.current_list_index + 1 },
                old(self)@.tweets.len(),
            ),
            key == KeyEvent::new(KeyCode::Char('k'), KeyModifiers::Empty) ==> final(self)@.current_list_index == collector_clamp(
                if old(self)@.current_list_index == 0 { 0 } else { (old(self)@.current_list_index - 1) as nat },
                old(self)@.tweets.len(),
            ),
            key != KeyEvent::new(KeyCode::Char('j'), KeyModifiers::Empty)
                && key != KeyEvent::new(KeyCode::Char('k'), KeyModifiers::Empty)
                ==> final(self)@ == old(self)@,
    {
        if key == KeyEvent::new(KeyCode::Char('j'), KeyModifiers::Empty) {
            self.move_list_index_down();
        } else if key == KeyEvent::new(KeyCode::Char('k'), KeyModifiers::Empty) {
            self.move_list_index_up();
        }
    }

    /// The posts visible in `height` rows, the selected one (by its position
    /// in the whole list) marked.
    pub fn visible_widgets(&self, height: u16) -> (w: Vec<TweetWidget>)
        ensures
            w@.len() == visible_len(self@.tweets.len(), scroll_offset(self@.current_list_index, height), visible_count(height)),
            forall|k: int| 0 <= k < w@.len() ==> {
                let i = scroll_offset(self@.current_list_index, height) + k;
                &&& (#[trigger] w@[k]).state == (if i == self@.current_list_index { TweetState::Selected } else { TweetState::Normal })
                &&& same_post(w@[k].tweet, self@.tweets[i])
            },
    {
        let shown = (height / TWEET_HEIGHT) as usize;
        let offset = self.current_list_index.saturating_sub(shown.saturating_sub(1));
        let len = self.tweets.len();
        let mut widgets: Vec<TweetWidget> = Vec::new();
        if offset >= len {
            return widgets;
        }
        let count = if len - offset <= shown { len - offset } else { shown };
        let mut k: usize = 0;
        while k < count
            invariant
                len == self@.tweets.len(),
                offset == scroll_offset(self@.current_list_index, height),
                offset < len,
                count == visible_len(len as nat, offset as nat, shown as nat),
                shown == visible_count(height),
                offset + count <= len,
                0 <= k <= count,
                widgets@.len() == k,
                forall|j: int| 0 <= j < k ==> {
                    let i = offset + j;
                    &&& (#[trigger] widgets@[j]).state == (if i == self@.current_list_index { TweetState::Selected } else { TweetState::Normal })
                    &&& same_post(widgets@[j].tweet, self@.tweets[i])
                },
            decreases count - k,
        {
            let i = offset + k;
            let t = &self.tweets[i];
            let copy = Tweet {
                name: t.name.clone(),
                handle: t.handle.clone(),
                time: t.time,
                body: t.body.clone(),
                replies: t.replies,
                retweets: t.retweets,
                likes: t.likes,
                liked: t.liked,
                retweeted: t.retweeted,
            };
            let state = if i == self.current_list_index { TweetState::Selected } else { TweetState::Normal };
            widgets.push(TweetWidget::new(copy, state));
            k = k + 1;
        }
        widgets
    }
}

/// The collector's status bar in read mode.
pub struct StatusBarElement {
    _private: (),
}

/// The one value of [`StatusBarElement`]: it holds no state.
pub closed spec fn the_read_status_bar() -> StatusBarElement {
    StatusBarElement { _private: () }
}

impl StatusBarElement {
    /// The status bar.
    pub fn new() -> (s: Self)
        ensures
            s == the_read_status_bar(),
    {
        StatusBarElement { _private: () }
    }

    /// The status line for `tweet_count` posts: " READ " in bold, then
    /// " fetched N posts ", white on blue.
    pub fn status_line(&self, tweet_count: usize) -> (l: Line)
        ensures
            l.spans@.len() == 2,
            l.spans@[0].content@ == " READ "@,
            l.spans@[0].style == plain_style().bold(),
            l.spans@[1].content@ == " fetched "@ + decimal(tweet_count as nat) + " posts "@,
            l.spans@[1].style == plain_style(),
            l.style == plain_style().bg(Color::Blue).fg(Color::White),
            l.alignment == Alignment::Left,
    {
        let mut content = " fetched ".to_owned();
        push_decimal(&mut content, tweet_count as u64);
        content.append(" posts ");
        let mut spans: Vec<Span> = Vec::new();
        spans.push(Span::styled(" READ ".to_owned(), Style::plain().bold()));
        spans.push(Span::raw(content));
        Line { spans, style: Style::plain().bg(Color::Blue).fg(Color::White), alignment: Alignment::Left }
    }
}

} // verus!
