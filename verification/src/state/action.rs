//! What the user asks for, what the client must do outside to carry it out,
//! and what the views must do afterwards.

use vstd::prelude::*;
use crate::api::twitter::models::{CreatePostOptions, Tweet};
use crate::utils::application_error::ApplicationError;

verus! {

/// A delayed event: clear the status message of one of the views.
#[derive(Debug, Clone, Copy, PartialEq, Eq, Structural)]
pub enum AppEvent {
    ResetReadState,
    ResetWriteState,
}

/// What the user asked for.
#[derive(Debug, Clone, PartialEq)]
pub enum Action {
    SwitchMode,
    RefreshTweets,
    Quit,
    LikeTweet { tweet_id: String, was_liked: bool },
    RetweetTweet { tweet_id: String },
    OpenTweet(Tweet),
    CreatePost { text: String, options: CreatePostOptions },
}

/// What the views must do after an action.
#[derive(Debug, Clone, Copy, PartialEq, Eq, Structural)]
pub enum ActionOutcome {
    Nothing,
    ResetReadView,
    ResetWriteView,
    DelayedResetView,
    Quit,
}

/// Work outside the client that an action needs: a call to the X API, or
/// opening a post in the browser.
#[derive(Debug, Clone, PartialEq)]
pub enum ApiRequest {
    FetchPosts { user_id: String },
    LikePost { tweet_id: String, user_id: String },
    UnlikePost { tweet_id: String, user_id: String },
    RetweetPost { tweet_id: String, user_id: String },
    CreatePost { text: String, options: CreatePostOptions },
    OpenTweet(Tweet),
}

/// The answer to an [`ApiRequest`]: the fetched posts, plain success, or the
/// error it failed with.
#[derive(Debug, Clone, PartialEq)]
pub enum ApiReply {
    Posts(Vec<Tweet>),
    Done,
    Failed(ApplicationError),
}

/// The next step of an action: it is finished with an outcome, or it waits
/// for outside work.
#[derive(Debug, Clone, PartialEq)]
pub enum ActionStep {
    Finished(ActionOutcome),
    Perform(ApiRequest),
}

/// Whether `reply` is a possible answer to `request`: posts answer a fetch,
/// plain success answers the other requests, and any request may fail.
pub open spec fn reply_fits(request: ApiRequest, reply: ApiReply) -> bool {
    match reply {
        ApiReply::Posts(_) => request is FetchPosts,
        ApiReply::Done => !(request is FetchPosts),
        ApiReply::Failed(_) => true,
    }
}

} // verus!
