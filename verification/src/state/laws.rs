//! Properties of the state machine that span several steps.

use vstd::prelude::*;
use crate::api::twitter::models::Tweet;
use crate::state::action::{Action, ActionOutcome, ActionStep, ApiReply, ApiRequest, AppEvent};
use crate::state::app_state::{StatusMessage, action_completion, action_step, after_like, after_retweet, liked_update, retweeted_update, status_after_events, toggled, with_mode_toggled, with_status, AppView};
use crate::state::read_state::{ReadStateView, first_with_id, is_first_with_id, lemma_first_with_id_exists, lemma_first_with_id_unique};
use crate::utils::application_error::ApplicationError;

verus! {

/// Toggling the mode twice gives the state back.
pub proof fn law_toggle_twice(v: AppView)
    ensures
        with_mode_toggled(with_mode_toggled(v)) == v,
{
    assert(with_mode_toggled(with_mode_toggled(v)) =~= v);
}

/// Switching mode twice gives the state back, and each switch asks the write
/// view to reset.
pub proof fn law_switch_mode_twice(v: AppView)
    ensures
        action_step(action_step(v, Action::SwitchMode).0, Action::SwitchMode).0 == v,
        action_step(v, Action::SwitchMode).1 == ActionStep::Finished(ActionOutcome::ResetWriteView),
{
    law_toggle_twice(v);
}

/// Liking a post that is not liked, then unliking it, gives the post back,
/// unless its like counter was already at its largest value.
pub proof fn law_like_then_unlike_tweet(t: Tweet)
    requires
        !t.liked,
        t.likes < u64::MAX,
    ensures
        liked_update(liked_update(t, false), true) == t,
{
}

/// Updating the first post with some identifier by a function that keeps
/// identifiers leaves it the first post with that identifier.
pub proof fn lemma_update_keeps_first(tweets: Seq<Tweet>, id: Seq<char>, i: int, t: Tweet)
    requires
        is_first_with_id(tweets, id, i),
        t.id@ == id,
    ensures
        first_with_id(tweets.update(i, t), id) == Some(i),
{
    let u = tweets.update(i, t);
    assert(is_first_with_id(u, id, i));
    let k = choose|k: int| is_first_with_id(u, id, k);
    lemma_first_with_id_unique(u, id, i, k);
}

/// In a state whose first post `id` is not liked, a completed like followed
/// by a completed unlike of `id` gives the posts back (unless the counter was
/// at its largest value), and leaves "Like removed" shown in both views.
pub proof fn law_like_then_unlike(v: AppView, id: Seq<char>, i: int)
    requires
        is_first_with_id(v.read.tweets, id, i),
        !v.read.tweets[i].liked,
        v.read.tweets[i].likes < u64::MAX,
    ensures
        after_like(after_like(v, id, false), id, true) == with_status(v, StatusMessage::Unliked),
{
    let k = choose|k: int| is_first_with_id(v.read.tweets, id, k);
    lemma_first_with_id_unique(v.read.tweets, id, i, k);
    let t = v.read.tweets[i];
    let liked = liked_update(t, false);
    lemma_update_keeps_first(v.read.tweets, id, i, liked);
    let w = after_like(v, id, false);
    assert(w.read.tweets == v.read.tweets.update(i, liked));
    law_like_then_unlike_tweet(t);
    assert(w.read.tweets.update(i, liked_update(liked, true)) =~= v.read.tweets);
    assert(after_like(w, id, true) =~= with_status(v, StatusMessage::Unliked));
}

/// Once a retweet of a post that is shown has completed, asking to retweet
/// it again calls nothing: it shows "already retweeted" and asks for a
/// delayed reset.
pub proof fn law_retweet_is_not_repeated(v: AppView, tweet_id: String, i: int)
    requires
        0 <= i < v.read.tweets.len(),
        v.read.tweets[i].id@ == tweet_id@,
    ensures
        ({
            let w = after_retweet(v, tweet_id@);
            action_step(w, Action::RetweetTweet { tweet_id }) == (
                with_status(w, StatusMessage::AlreadyRetweeted),
                ActionStep::Finished(ActionOutcome::DelayedResetView),
            )
        }),
{
    lemma_first_with_id_exists(v.read.tweets, tweet_id@, i);
    let j = choose|j: int| is_first_with_id(v.read.tweets, tweet_id@, j);
    let t = retweeted_update(v.read.tweets[j]);
    lemma_update_keeps_first(v.read.tweets, tweet_id@, j, t);
}

/// A failed call leaves the state as it was and returns its error, except
/// opening a post in the browser, which ends without outcome either way.
pub proof fn law_failure_changes_nothing(v: AppView, request: ApiRequest, e: ApplicationError)
    ensures
        action_completion(v, request, ApiReply::Failed(e)).0 == v,
        !(request is OpenTweet) ==> action_completion(v, request, ApiReply::Failed(e)).1 == Err::<ActionOutcome, ApplicationError>(e),
        request is OpenTweet ==> action_completion(v, request, ApiReply::Failed(e)).1 == Ok::<ActionOutcome, ApplicationError>(ActionOutcome::Nothing),
{
}

/// A message shown in both views is cleared from both by the two delayed
/// reset events, whatever their order.
pub proof fn law_status_cleared_by_events(v: AppView, m: StatusMessage, events: Seq<AppEvent>)
    requires
        events.contains(AppEvent::ResetReadState),
        events.contains(AppEvent::ResetWriteState),
    ensures
        status_after_events(with_status(v, m).read.status_message, events, AppEvent::ResetReadState) is None,
        status_after_events(with_status(v, m).write, events, AppEvent::ResetWriteState) is None,
{
}

/// Publishing a post leaves the mode it was started in and shows the
/// confirmation in both views; the posts stay as they were.
pub proof fn law_post_created(v: AppView, request: ApiRequest)
    requires
        request is CreatePost,
    ensures
        action_completion(v, request, ApiReply::Done).0.mode == toggled(v.mode),
        action_completion(v, request, ApiReply::Done).0.read.status_message == Some(StatusMessage::NewPostAdded),
        action_completion(v, request, ApiReply::Done).0.write == Some(StatusMessage::NewPostAdded),
        action_completion(v, request, ApiReply::Done).0.read.tweets == v.read.tweets,
        action_completion(v, request, ApiReply::Done).1 == Ok::<ActionOutcome, ApplicationError>(ActionOutcome::DelayedResetView),
{
}

/// Asking to like a post that was liked sends an unlike of it, and asking to
/// like one that was not sends a like; neither changes the state before the
/// API answers.
pub proof fn law_like_request_follows_liked_flag(v: AppView, tweet_id: String, was_liked: bool)
    ensures
        ({
            let (w, step) = action_step(v, Action::LikeTweet { tweet_id, was_liked });
            &&& w == v
            &&& was_liked ==> step == ActionStep::Perform(ApiRequest::UnlikePost { tweet_id, user_id: v.user_info.id })
            &&& !was_liked ==> step == ActionStep::Perform(ApiRequest::LikePost { tweet_id, user_id: v.user_info.id })
        }),
{
}

} // verus!
