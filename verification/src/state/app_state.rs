//! The client's state machine: the mode, the logged-in user, the two views'
//! states, and how actions and their outside results change them.

use vstd::prelude::*;
use crate::api::twitter::models::{Tweet, UserInfo};
use crate::state::action::{Action, ActionOutcome, ActionStep, ApiReply, ApiRequest, AppEvent, reply_fits};
use crate::state::read_state::{ReadState, ReadStateView, first_with_id};
use crate::state::write_state::WriteState;
use crate::utils::application_error::ApplicationError;

verus! {

/// Whether the client shows posts or the editor for a new one.
#[derive(Debug, Clone, Copy, PartialEq, Eq, Structural)]
pub enum Mode {
    Read,
    Write,
}

/// A short confirmation shown in the status bar after an action.
#[derive(Debug, Clone, Copy, PartialEq, Eq, Structural)]
pub enum StatusMessage {
    Liked,
    Unliked,
    Retweeted,
    AlreadyRetweeted,
    NewPostAdded,
}

/// The other mode.
pub open spec fn toggled(m: Mode) -> Mode {
    match m {
        Mode::Read => Mode::Write,
        Mode::Write => Mode::Read,
    }
}

/// The name of a mode, as the client prints it.
pub open spec fn mode_name(m: Mode) -> Seq<char> {
    match m {
        Mode::Read => "read"@,
        Mode::Write => "write"@,
    }
}

impl Mode {
    /// The name of this mode: "read" or "write".
    pub fn name(&self) -> (s: &'static str)
        ensures
            s@ == mode_name(*self),
    {
        match self {
            Mode::Read => "read",
            Mode::Write => "write",
        }
    }
}

/// The whole state of the client.
pub struct AppState {
    mode: Mode,
    user_info: UserInfo,
    read_state: ReadState,
    write_state: WriteState,
}

/// The abstract content of an [`AppState`].
#[verifier::ext_equal]
pub struct AppView {
    pub mode: Mode,
    pub user_info: UserInfo,
    pub read: ReadStateView,
    pub write: Option<StatusMessage>,
}

impl View for AppState {
    type V = AppView;

    closed spec fn view(&self) -> AppView {
        AppView {
            mode: self.mode,
            user_info: self.user_info,
            read: self.read_state@,
            write: self.write_state@,
        }
    }
}

/// `v` with `m` shown in both views.
pub open spec fn with_status(v: AppView, m: StatusMessage) -> AppView {
    AppView {
        read: ReadStateView { status_message: Some(m), tweets: v.read.tweets },
        write: Some(m),
        ..v
    }
}

/// `v` in the other mode.
pub open spec fn with_mode_toggled(v: AppView) -> AppView {
    AppView { mode: toggled(v.mode), ..v }
}

/// `n - 1`, or 0 when `n` is 0.
pub open spec fn dec_saturating(n: u64) -> u64 {
    if n == 0 { 0 } else { (n - 1) as u64 }
}

/// `n + 1`, or the largest `u64` when `n` is already that.
pub open spec fn inc_saturating(n: u64) -> u64 {
    if n == u64::MAX { u64::MAX } else { (n + 1) as u64 }
}

/// A post after a like (`was_liked` false) or an unlike (`was_liked` true).
pub open spec fn liked_update(t: Tweet, was_liked: bool) -> Tweet {
    Tweet {
        liked: !was_liked,
        likes: if was_liked { dec_saturating(t.likes) } else { inc_saturating(t.likes) },
        ..t
    }
}

/// A post after it was retweeted.
pub open spec fn retweeted_update(t: Tweet) -> Tweet {
    Tweet { retweeted: true, ..t }
}

/// `tweets` with the first post whose identifier is `id` replaced by `f` of it.
pub open spec fn update_first(tweets: Seq<Tweet>, id: Seq<char>, f: spec_fn(Tweet) -> Tweet) -> Seq<Tweet> {
    match first_with_id(tweets, id) {
        Some(i) => tweets.update(i, f(tweets[i])),
        None => tweets,
    }
}

/// Whether the first post whose identifier is `id` is already retweeted.
pub open spec fn already_retweeted(tweets: Seq<Tweet>, id: Seq<char>) -> bool {
    match first_with_id(tweets, id) {
        Some(i) => tweets[i].retweeted,
        None => false,
    }
}

/// `v` with the post `id` (un)liked and the matching message shown.
pub open spec fn after_like(v: AppView, id: Seq<char>, was_liked: bool) -> AppView {
    with_status(
        AppView {
            read: ReadStateView {
                status_message: v.read.status_message,
                tweets: update_first(v.read.tweets, id, |t: Tweet| liked_update(t, was_liked)),
            },
            ..v
        },
        if was_liked { StatusMessage::Unliked } else { StatusMessage::Liked },
    )
}

/// `v` with the post `id` retweeted and the matching message shown.
pub open spec fn after_retweet(v: AppView, id: Seq<char>) -> AppView {
    with_status(
        AppView {
            read: ReadStateView {
                status_message: v.read.status_message,
                tweets: update_first(v.read.tweets, id, |t: Tweet| retweeted_update(t)),
            },
            ..v
        },
        StatusMessage::Retweeted,
    )
}

/// `v` after a new post was published: the confirmation shown and the mode
/// toggled.
pub open spec fn after_post_created(v: AppView) -> AppView {
    with_mode_toggled(with_status(v, StatusMessage::NewPostAdded))
}

/// The first step of `action` from the state `v`: the state after it, and the
/// step.
pub open spec fn action_step(v: AppView, action: Action) -> (AppView, ActionStep) {
    match action {
        Action::SwitchMode => (with_mode_toggled(v), ActionStep::Finished(ActionOutcome::ResetWriteView)),
        Action::RefreshTweets => (v, ActionStep::Perform(ApiRequest::FetchPosts { user_id: v.user_info.id })),
        Action::Quit => (v, ActionStep::Finished(ActionOutcome::Quit)),
        Action::LikeTweet { tweet_id, was_liked } => (
            v,
            ActionStep::Perform(
                if was_liked {
                    ApiRequest::UnlikePost { tweet_id, user_id: v.user_info.id }
                } else {
                    ApiRequest::LikePost { tweet_id, user_id: v.user_info.id }
                },
            ),
        ),
        Action::RetweetTweet { tweet_id } => if already_retweeted(v.read.tweets, tweet_id@) {
            (with_status(v, StatusMessage::AlreadyRetweeted), ActionStep::Finished(ActionOutcome::DelayedResetView))
        } else {
            (v, ActionStep::Perform(ApiRequest::RetweetPost { tweet_id, user_id: v.user_info.id }))
        },
        Action::OpenTweet(t) => (v, ActionStep::Perform(ApiRequest::OpenTweet(t))),
        Action::CreatePost { text, options } => (v, ActionStep::Perform(ApiRequest::CreatePost { text, options })),
    }
}

/// How the outside result `reply` of `request` completes an action from the
/// state `v`: the state after it, and the outcome. Opening a post in the
/// browser ends the same way whether it worked or not; any other failure is
/// returned and leaves the state as it was.
pub open spec fn action_completion(v: AppView, request: ApiRequest, reply: ApiReply) -> (AppView, Result<ActionOutcome, ApplicationError>) {
    match request {
        ApiRequest::OpenTweet(_) => (v, Ok(ActionOutcome::Nothing)),
        _ => match reply {
            ApiReply::Failed(e) => (v, Err(e)),
            ApiReply::Posts(tweets) => (
                AppView { read: ReadStateView { status_message: None, tweets: tweets@ }, ..v },
                Ok(ActionOutcome::ResetReadView),
            ),
            ApiReply::Done => match request {
                ApiRequest::LikePost { tweet_id, .. } => (after_like(v, tweet_id@, false), Ok(ActionOutcome::DelayedResetView)),
                ApiRequest::UnlikePost { tweet_id, .. } => (after_like(v, tweet_id@, true), Ok(ActionOutcome::DelayedResetView)),
                ApiRequest::RetweetPost { tweet_id, .. } => (after_retweet(v, tweet_id@), Ok(ActionOutcome::DelayedResetView)),
                ApiRequest::CreatePost { .. } => (after_post_created(v), Ok(ActionOutcome::DelayedResetView)),
                _ => (v, Ok(ActionOutcome::Nothing)),
            },
        },
    }
}

/// The status message of one view after the delayed events `events`: cleared
/// if one of them is `reset`.
pub open spec fn status_after_events(s: Option<StatusMessage>, events: Seq<AppEvent>, reset: AppEvent) -> Option<StatusMessage> {
    if events.contains(reset) { None } else { s }
}

impl AppState {
    /// The state right after login: read mode, the fetched posts, no status
    /// messages.
    pub fn new(user_info: UserInfo, tweets: Vec<Tweet>) -> (s: Self)
        ensures
            s@.mode == Mode::Read,
            s@.user_info == user_info,
            s@.read.tweets == tweets@,
            s@.read.status_message is None,
            s@.write is None,
    {
        AppState {
            mode: Mode::Read,
            user_info,
            read_state: ReadState::new(tweets),
            write_state: WriteState::default(),
        }
    }

    /// The current mode.
    pub fn mode(&self) -> (m: &Mode)
        ensures
            *m == self@.mode,
    {
        &self.mode
    }

    /// Switches between read and write mode.
    pub fn toggle_mode(&mut self)
        ensures
            final(self)@ == with_mode_toggled(old(self)@),
    {
        let new_mode = match self.mode {
            Mode::Read => Mode::Write,
            Mode::Write => Mode::Read,
        };
        self.mode = new_mode;
    }

    /// The identifier of the logged-in user.
    pub fn user_id(&self) -> (s: &str)
        ensures
            s@ == self@.user_info.id@,
    {
        self.user_info.id.as_str()
    }

    /// The username of the logged-in user.
    pub fn username(&self) -> (s: &str)
        ensures
            s@ == self@.user_info.username@,
    {
        self.user_info.username.as_str()
    }

    /// Shows the freshly fetched `tweets`, with no status message.
    pub fn refresh_tweets(&mut self, tweets: Vec<Tweet>)
        ensures
            final(self)@ == (AppView { read: ReadStateView { status_message: None, tweets: tweets@ }, ..old(self)@ }),
    {
        self.read_state = ReadState::new(tweets);
    }

    /// Shows `new_status_message` in both views.
    pub fn show_status_message(&mut self, new_status_message: StatusMessage)
        ensures
            final(self)@ == with_status(old(self)@, new_status_message),
    {
        self.read_state.set_status_message(Some(new_status_message));
        self.write_state.set_status_message(Some(new_status_message));
    }

    /// Applies the delayed events `events`, each clearing the status message
    /// of its view.
    pub fn process_events(&mut self, events: Vec<AppEvent>)
        ensures
            final(self)@ == (AppView {
                read: ReadStateView {
                    status_message: status_after_events(old(self)@.read.status_message, events@, AppEvent::ResetReadState),
                    tweets: old(self)@.read.tweets,
                },
                write: status_after_events(old(self)@.write, events@, AppEvent::ResetWriteState),
                ..old(self)@
            }),
    {
        let n = events.len();
        let mut i: usize = 0;
        while i < n
            invariant
                n == events@.len(),
                0 <= i <= n,
                self@ == (AppView {
                    read: ReadStateView {
                        status_message: status_after_events(old(self)@.read.status_message, events@.take(i as int), AppEvent::ResetReadState),
                        tweets: old(self)@.read.tweets,
                    },
                    write: status_after_events(old(self)@.write, events@.take(i as int), AppEvent::ResetWriteState),
                    ..old(self)@
                }),
            decreases n - i,
        {
            let ghost prefix = events@.take(i as int);
            let ghost next = events@.take(i + 1);
            assert(next == prefix.push(events@[i as int]));
            assert forall|e: AppEvent| next.contains(e) <==> (prefix.contains(e) || e == events@[i as int]) by {
                if next.contains(e) {
                    let k = choose|k: int| 0 <= k < next.len() && next[k] == e;
                    if k < i {
                        assert(prefix[k] == e);
                    }
                }
                if prefix.contains(e) {
                    let k = choose|k: int| 0 <= k < prefix.len() && prefix[k] == e;
                    assert(next[k] == e);
                }
                if e == events@[i as int] {
                    assert(next[i as int] == e);
                }
            }
            match events[i] {
                AppEvent::ResetReadState => self.read_state.set_status_message(None),
                AppEvent::ResetWriteState => self.write_state.set_status_message(None),
            }
            i = i + 1;
        }
        assert(events@.take(n as int) == events@);
    }

    /// The state of the read view.
    pub fn read_state(&self) -> (r: &ReadState)
        ensures
            r@ == self@.read,
    {
        &self.read_state
    }

    /// The state of the write view.
    pub fn write_state(&self) -> (w: &WriteState)
        ensures
            w@ == self@.write,
    {
        &self.write_state
    }

    /// Starts `action`: decides what can be decided without outside work and
    /// returns either the finished outcome or the outside work to perform.
    pub fn handle_action(&mut self, action: Action) -> (step: ActionStep)
        ensures
            (final(self)@, step) == action_step(old(self)@, action),
    {
        match action {
            Action::SwitchMode => {
                self.toggle_mode();
                ActionStep::Finished(ActionOutcome::ResetWriteView)
            },
            Action::RefreshTweets => ActionStep::Perform(ApiRequest::FetchPosts { user_id: self.user_info.id.clone() }),
            Action::Quit => ActionStep::Finished(ActionOutcome::Quit),
            Action::LikeTweet { tweet_id, was_liked } => {
                let user_id = self.user_info.id.clone();
                if was_liked {
                    ActionStep::Perform(ApiRequest::UnlikePost { tweet_id, user_id })
                } else {
                    ActionStep::Perform(ApiRequest::LikePost { tweet_id, user_id })
                }
            },
            Action::RetweetTweet { tweet_id } => {
                if self.is_already_retweeted(tweet_id.as_str()) {
                    self.show_status_message(StatusMessage::AlreadyRetweeted);
                    ActionStep::Finished(ActionOutcome::DelayedResetView)
                } else {
                    ActionStep::Perform(ApiRequest::RetweetPost { tweet_id, user_id: self.user_info.id.clone() })
                }
            },
            Action::OpenTweet(tweet) => ActionStep::Perform(ApiRequest::OpenTweet(tweet)),
            Action::CreatePost { text, options } => ActionStep::Perform(ApiRequest::CreatePost { text, options }),
        }
    }

    /// Finishes the action that asked for `request`, given the outside result
    /// `reply`.
    pub fn complete_action(&mut self, request: ApiRequest, reply: ApiReply) -> (r: Result<ActionOutcome, ApplicationError>)
        requires
            reply_fits(request, reply),
        ensures
            (final(self)@, r) == action_completion(old(self)@, request, reply),
    {
        match request {
            ApiRequest::OpenTweet(_) => Ok(ActionOutcome::Nothing),
            _ => match reply {
                ApiReply::Failed(e) => Err(e),
                ApiReply::Posts(tweets) => {
                    self.refresh_tweets(tweets);
                    Ok(ActionOutcome::ResetReadView)
                },
                ApiReply::Done => match request {
                    ApiRequest::LikePost { tweet_id, .. } => {
                        self.handle_like_action(tweet_id.as_str(), false);
                        Ok(ActionOutcome::DelayedResetView)
                    },
                    ApiRequest::UnlikePost { tweet_id, .. } => {
                        self.handle_like_action(tweet_id.as_str(), true);
                        Ok(ActionOutcome::DelayedResetView)
                    },
                    ApiRequest::RetweetPost { tweet_id, .. } => {
                        self.handle_retweet_action(tweet_id.as_str());
                        Ok(ActionOutcome::DelayedResetView)
                    },
                    ApiRequest::CreatePost { .. } => {
                        self.handle_create_post();
                        Ok(ActionOutcome::DelayedResetView)
                    },
                    _ => Ok(ActionOutcome::Nothing),
                },
            },
        }
    }

    /// Whether the first post with identifier `tweet_id` is already retweeted.
    fn is_already_retweeted(&self, tweet_id: &str) -> (b: bool)
        ensures
            b == already_retweeted(self@.read.tweets, tweet_id@),
    {
        match self.read_state.tweet_index_by_id(tweet_id) {
            Some(i) => self.read_state.tweets()[i].retweeted,
            None => false,
        }
    }

    /// After the API accepted a new post: shows the confirmation and leaves
    /// write mode.
    fn handle_create_post(&mut self)
        ensures
            final(self)@ == after_post_created(old(self)@),
    {
        self.show_status_message(StatusMessage::NewPostAdded);
        self.toggle_mode();
    }

    /// After the API accepted a like (`was_liked` false) or an unlike
    /// (`was_liked` true) of `tweet_id`: updates the post and shows the
    /// confirmation.
    fn handle_like_action(&mut self, tweet_id: &str, was_liked: bool)
        ensures
            final(self)@ == after_like(old(self)@, tweet_id@, was_liked),
    {
        match self.read_state.tweet_index_by_id(tweet_id) {
            Some(i) => {
                let mut tweet = self.read_state.tweets()[i].duplicate();
                tweet.liked = !was_liked;
                tweet.likes = if was_liked {
                    tweet.likes.saturating_sub(1)
                } else {
                    tweet.likes.saturating_add(1)
                };
                self.read_state.replace_tweet(i, tweet);
            },
            None => {},
        }
        self.show_status_message(if was_liked { StatusMessage::Unliked } else { StatusMessage::Liked });
    }

    /// After the API accepted a retweet of `tweet_id`: marks the post and
    /// shows the confirmation.
    fn handle_retweet_action(&mut self, tweet_id: &str)
        ensures
            final(self)@ == after_retweet(old(self)@, tweet_id@),
    {
        match self.read_state.tweet_index_by_id(tweet_id) {
            Some(i) => {
                let mut tweet = self.read_state.tweets()[i].duplicate();
                tweet.retweeted = true;
                self.read_state.replace_tweet(i, tweet);
            },
            None => {},
        }
        self.show_status_message(StatusMessage::Retweeted);
    }
}

} // verus!
