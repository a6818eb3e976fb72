//! The list of posts in the read view: which one is selected, which are
//! visible, and what the keys on it ask for.

use vstd::prelude::*;
use crate::api::twitter::models::Tweet;
use crate::keys::{KeyCode, KeyEvent, KeyModifiers};
use crate::modes::read_view::tweet_widget::{TweetState, TweetWidget};
use crate::state::action::Action;
use crate::state::read_state::ReadState;
use crate::utils::application_error::ApplicationError;

verus! {

/// The rows one post takes.
pub const TWEET_HEIGHT: u16 = 4;

/// The list of posts, with the position of the selected one.
#[derive(Debug, Clone)]
pub struct BodyElement {
    current_list_index: usize,
}

impl View for BodyElement {
    type V = nat;

    closed spec fn view(&self) -> nat {
        self.current_list_index as nat
    }
}

/// `i` kept within a list of `max_len` posts: at most its last position, and
/// 0 for an empty list.
pub open spec fn clamped_index(i: nat, max_len: nat) -> nat {
    let last: nat = if max_len == 0 { 0 } else { (max_len - 1) as nat };
    if i <= last { i } else { last }
}

/// The selection after moving up in a list of `max_len` posts.
pub open spec fn index_after_up(i: nat, max_len: nat) -> nat {
    clamped_index(if i == 0 { 0 } else { (i - 1) as nat }, max_len)
}

/// The selection after moving down in a list of `max_len` posts.
pub open spec fn index_after_down(i: nat, max_len: nat) -> nat {
    clamped_index(if i == usize::MAX { i } else { i + 1 }, max_len)
}

/// How many posts fit in `height` rows.
pub open spec fn visible_count(height: u16) -> nat {
    (height / TWEET_HEIGHT) as nat
}

/// The first visible position, so that the selection `i` is on the last
/// visible row when it is below the first screen.
pub open spec fn scroll_offset(i: nat, height: u16) -> nat {
    let last_row: nat = if visible_count(height) == 0 { 0 } else { (visible_count(height) - 1) as nat };
    if i >= last_row { (i - last_row) as nat } else { 0 }
}

/// The number of posts visible from `scroll_offset` on, at most
/// `visible_count`.
pub open spec fn visible_len(len: nat, scroll_offset: nat, visible_count: nat) -> nat {
    if scroll_offset >= len {
        0
    } else if len - scroll_offset <= visible_count {
        (len - scroll_offset) as nat
    } else {
        visible_count
    }
}

impl Default for BodyElement {
    fn default() -> (b: Self)
        ensures
            b@ == 0,
    {
        BodyElement { current_list_index: 0 }
    }
}

impl BodyElement {
    /// The position of the selected post.
    pub fn current_list_index(&self) -> (i: usize)
        ensures
            i == self@,
    {
        self.current_list_index
    }

    /// Moves the selection one post up, staying within `max_len` posts.
    pub fn move_list_index_up(&mut self, max_len: usize)
        ensures
            final(self)@ == index_after_up(old(self)@, max_len as nat),
    {
        self.current_list_index = self.clamp_list_index(self.current_list_index.saturating_sub(1), max_len);
    }

    /// Moves the selection one post down, staying within `max_len` posts.
    pub fn move_list_index_down(&mut self, max_len: usize)
        ensures
            final(self)@ == index_after_down(old(self)@, max_len as nat),
    {
        self.current_list_index = self.clamp_list_index(self.current_list_index.saturating_add(1), max_len);
    }

    /// `new_list_index` kept within a list of `max_len` posts.
    pub fn clamp_list_index(&self, new_list_index: usize, max_len: usize) -> (r: usize)
        ensures
            r == clamped_index(new_list_index as nat, max_len as nat),
    {
        let last = max_len.saturating_sub(1);
        if new_list_index <= last {
            new_list_index
        } else {
            last
        }
    }

    /// The like (or unlike) of the selected post, if there is one.
    pub fn like_action(&self, state: &ReadState) -> (a: Option<Action>)
        ensures
            a == (if self@ < state@.tweets.len() {
                Some(Action::LikeTweet {
                    tweet_id: state@.tweets[self@ as int].id,
                    was_liked: state@.tweets[self@ as int].liked,
                })
            } else {
                None
            }),
    {
        match state.tweet(self.current_list_index) {
            Some(tweet) => Some(Action::LikeTweet { tweet_id: tweet.id.clone(), was_liked: tweet.liked }),
            None => None,
        }
    }

    /// The retweet of the selected post, if there is one.
    pub fn retweet_action(&self, state: &ReadState) -> (a: Option<Action>)
        ensures
            a == (if self@ < state@.tweets.len() {
                Some(Action::RetweetTweet { tweet_id: state@.tweets[self@ as int].id })
            } else {
                None
            }),
    {
        match state.tweet(self.current_list_index) {
            Some(tweet) => Some(Action::RetweetTweet { tweet_id: tweet.id.clone() }),
            None => None,
        }
    }

    /// Opening the selected post in the browser, if there is one.
    pub fn open_action(&self, state: &ReadState) -> (a: Option<Action>)
        ensures
            a == (if self@ < state@.tweets.len() {
                Some(Action::OpenTweet(state@.tweets[self@ as int]))
            } else {
                None
            }),
    {
        match state.tweet(self.current_list_index) {
            Some(tweet) => Some(Action::OpenTweet(tweet.duplicate())),
            None => None,
        }
    }

    /// How many posts fit in `height` rows, and the first visible position.
    pub fn calculate_visible_count_and_scroll_offset(&self, height: u16) -> (r: (usize, usize))
        ensures
            r.0 == visible_count(height),
            r.1 == scroll_offset(self@, height),
    {
        let visible_count = (height / TWEET_HEIGHT) as usize;
        let scroll_offset = self.current_list_index.saturating_sub(visible_count.saturating_sub(1));
        (visible_count, scroll_offset)
    }

    /// The widgets of the visible posts: at most `visible_count` posts from
    /// `scroll_offset` on. A widget is selected when its place among the
    /// visible ones equals the selection.
    pub fn create_tweet_widgets<'a>(&self, tweets: &'a [Tweet], scroll_offset: usize, visible_count: usize) -> (w: Vec<TweetWidget<'a>>)
        ensures
            w@.len() == visible_len(tweets@.len(), scroll_offset as nat, visible_count as nat),
            forall|k: int| 0 <= k < w@.len() ==> {
                &&& *w@[k].tweet == tweets@[scroll_offset + k]
                &&& w@[k].state == (if k == self@ { TweetState::Selected } else { TweetState::Normal })
            },
    {
        let len = tweets.len();
        let mut widgets: Vec<TweetWidget<'a>> = Vec::new();
        if scroll_offset >= len {
            return widgets;
        }
        let count = if len - scroll_offset <= visible_count { len - scroll_offset } else { visible_count };
        let mut k: usize = 0;
        while k < count
            invariant
                len == tweets@.len(),
                scroll_offset < len,
                count == visible_len(len as nat, scroll_offset as nat, visible_count as nat),
                scroll_offset + count <= len,
                0 <= k <= count,
                widgets@.len() == k,
                forall|j: int| 0 <= j < k ==> {
                    &&& *widgets@[j].tweet == tweets@[scroll_offset + j]
                    &&& widgets@[j].state == (if j == self@ { TweetState::Selected } else { TweetState::Normal })
                },
            decreases count - k,
        {
            let tweet = &tweets[scroll_offset + k];
            let state = if k == self.current_list_index { TweetState::Selected } else { TweetState::Normal };
            widgets.push(TweetWidget::new(tweet, state));
            k = k + 1;
        }
        widgets
    }

    /// The action of `key` on the list: j and k move the selection, l likes,
    /// r retweets, o opens the selected post, Ctrl+r refreshes.
    pub fn handle_key_event(&mut self, key: KeyEvent, state: &ReadState) -> (r: Result<Option<Action>, ApplicationError>)
        ensures
            key == KeyEvent::new(KeyCode::Char('j'), KeyModifiers::Empty) ==> {
                &&& final(self)@ == index_after_down(old(self)@, state@.tweets.len())
                &&& r == Ok::<Option<Action>, ApplicationError>(None)
            },
            key == KeyEvent::new(KeyCode::Char('k'), KeyModifiers::Empty) ==> {
                &&& final(self)@ == index_after_up(old(self)@, state@.tweets.len())
                &&& r == Ok::<Option<Action>, ApplicationError>(None)
            },
            key != KeyEvent::new(KeyCode::Char('j'), KeyModifiers::Empty)
                && key != KeyEvent::new(KeyCode::Char('k'), KeyModifiers::Empty) ==> final(self)@ == old(self)@,
            key == KeyEvent::new(KeyCode::Char('l'), KeyModifiers::Empty) ==> r == Ok::<Option<Action>, ApplicationError>(old(self).like_action_spec(state)),
            key == KeyEvent::new(KeyCode::Char('l'), KeyModifiers::Empty) && old(self)@ < state@.tweets.len() ==> r == Ok::<Option<Action>, ApplicationError>(Some(Action::LikeTweet {
                tweet_id: state@.tweets[old(self)@ as int].id,
                was_liked: state@.tweets[old(self)@ as int].liked,
            })),
            key == KeyEvent::new(KeyCode::Char('r'), KeyModifiers::Empty) && old(self)@ < state@.tweets.len() ==> r == Ok::<Option<Action>, ApplicationError>(Some(Action::RetweetTweet {
                tweet_id: state@.tweets[old(self)@ as int].id,
            })),
            key == KeyEvent::new(KeyCode::Char('o'), KeyModifiers::Empty) && old(self)@ < state@.tweets.len() ==> r == Ok::<Option<Action>, ApplicationError>(Some(Action::OpenTweet(
                state@.tweets[old(self)@ as int],
            ))),
            key == KeyEvent::new(KeyCode::Char('r'), KeyModifiers::Empty) ==> r == Ok::<Option<Action>, ApplicationError>(old(self).retweet_action_spec(state)),
            key == KeyEvent::new(KeyCode::Char('o'), KeyModifiers::Empty) ==> r == Ok::<Option<Action>, ApplicationError>(old(self).open_action_spec(state)),
            key == KeyEvent::new(KeyCode::Char('r'), KeyModifiers::Control) ==> r == Ok::<Option<Action>, ApplicationError>(Some(Action::RefreshTweets)),
            !(key.modifiers == KeyModifiers::Empty && (key.code == KeyCode::Char('j') || key.code == KeyCode::Char('k')
                || key.code == KeyCode::Char('l') || key.code == KeyCode::Char('r') || key.code == KeyCode::Char('o')))
                && key != KeyEvent::new(KeyCode::Char('r'), KeyModifiers::Control)
                ==> r == Ok::<Option<Action>, ApplicationError>(None),
    {
        let action = match (key.modifiers, key.code) {
            (KeyModifiers::Empty, KeyCode::Char('j')) => {
                self.move_list_index_down(state.tweet_count());
                None
            },
            (KeyModifiers::Empty, KeyCode::Char('k')) => {
                self.move_list_index_up(state.tweet_count());
                None
            },
            (KeyModifiers::Empty, KeyCode::Char('l')) => self.like_action(state),
            (KeyModifiers::Empty, KeyCode::Char('r')) => self.retweet_action(state),
            (KeyModifiers::Empty, KeyCode::Char('o')) => self.open_action(state),
            (KeyModifiers::Control, KeyCode::Char('r')) => Some(Action::RefreshTweets),
            _ => None,
        };
        Ok(action)
    }

    /// Selects the first post again.
    pub fn reset(&mut self)
        ensures
            final(self)@ == 0,
    {
        self.current_list_index = 0;
    }

    /// The like (or unlike) of the selected post, if there is one.
    pub open spec fn like_action_spec(&self, state: &ReadState) -> Option<Action> {
        if self@ < state@.tweets.len() {
            Some(Action::LikeTweet {
                tweet_id: state@.tweets[self@ as int].id,
                was_liked: state@.tweets[self@ as int].liked,
            })
        } else {
            None
        }
    }

    /// The retweet of the selected post, if there is one.
    pub open spec fn retweet_action_spec(&self, state: &ReadState) -> Option<Action> {
        if self@ < state@.tweets.len() {
            Some(Action::RetweetTweet { tweet_id: state@.tweets[self@ as int].id })
        } else {
            None
        }
    }

    /// Opening the selected post, if there is one.
    pub open spec fn open_action_spec(&self, state: &ReadState) -> Option<Action> {
        if self@ < state@.tweets.len() {
            Some(Action::OpenTweet(state@.tweets[self@ as int]))
        } else {
            None
        }
    }
}

/// Moving never takes the selection past the last post of a non-empty list,
/// nor anywhere but 0 in an empty one.
pub proof fn law_selection_stays_in_list(i: nat, max_len: nat)
    ensures
        max_len > 0 ==> index_after_up(i, max_len) < max_len && index_after_down(i, max_len) < max_len,
        max_len == 0 ==> index_after_up(i, max_len) == 0 && index_after_down(i, max_len) == 0,
{
}

/// From a post that is not the last, moving down then up comes back to it;
/// from a post that is not the first, moving up then down comes back too.
pub proof fn law_down_then_up(i: nat, max_len: nat)
    requires
        i + 1 < max_len,
        max_len <= usize::MAX,
    ensures
        index_after_up(index_after_down(i, max_len), max_len) == i,
        index_after_down(index_after_up(i + 1, max_len), max_len) == i + 1,
{
}

/// The selection is always on a visible row: between the first visible
/// position and the last one that fits.
pub proof fn law_selection_visible(i: nat, height: u16)
    requires
        visible_count(height) > 0,
    ensures
        scroll_offset(i, height) <= i < scroll_offset(i, height) + visible_count(height),
{
}

/// With a post selected, `l` asks to like it when it is not liked and to
/// unlike it when it is (the action carries the post's identifier and its
/// liked flag); `r` asks to retweet it and `o` to open it. With no post
/// selected these keys ask nothing.
pub proof fn law_selected_post_actions(b: BodyElement, state: ReadState)
    ensures
        b@ < state@.tweets.len() ==> {
            let t = state@.tweets[b@ as int];
            &&& b.like_action_spec(&state) matches Some(Action::LikeTweet { tweet_id, was_liked })
                && tweet_id == t.id && was_liked == t.liked
            &&& b.retweet_action_spec(&state) matches Some(Action::RetweetTweet { tweet_id }) && tweet_id == t.id
            &&& b.open_action_spec(&state) matches Some(Action::OpenTweet(o)) && o == t
        },
        b@ >= state@.tweets.len() ==> {
            &&& b.like_action_spec(&state) is None
            &&& b.retweet_action_spec(&state) is None
            &&& b.open_action_spec(&state) is None
        },
{
}

} // verus!
