//! The values exchanged with the X API and the posts the client shows.

use vstd::prelude::*;
use chrono::NaiveDateTime;

verus! {

/// The body of a like or retweet request: the post it is about.
#[derive(Debug, Clone, PartialEq)]
pub struct TweetIdRequest {
    pub tweet_id: String,
}

/// The body of a request that creates a post.
#[derive(Debug, Clone, PartialEq)]
pub struct CreatePostRequest {
    pub text: String,
    pub options: CreatePostOptions,
}

/// The options a new post is published with.
#[derive(Debug, Clone, Copy, PartialEq, Eq, Structural)]
pub struct CreatePostOptions {
    pub share_with_followers: bool,
    pub paid_partnership: bool,
    pub nullcast: bool,
}

/// The options a new post starts with: shared with followers, no paid
/// partnership, not promoted.
pub open spec fn default_post_options() -> CreatePostOptions {
    CreatePostOptions { share_with_followers: true, paid_partnership: false, nullcast: false }
}

impl Default for CreatePostOptions {
    fn default() -> (o: Self)
        ensures
            o == default_post_options(),
    {
        CreatePostOptions { share_with_followers: true, paid_partnership: false, nullcast: false }
    }
}

/// A post as the API reports it after creating it.
#[derive(Debug, Clone, PartialEq)]
pub struct CreatedPost {
    pub id: String,
    pub text: String,
}

/// One page of the home timeline: posts, the users they mention, and the
/// token of the next page.
#[derive(Debug, Clone, PartialEq)]
pub struct TimelineResponse {
    pub data: Vec<TimelinePost>,
    pub includes: TimelineIncludes,
    pub meta: PaginationMeta,
}

/// A post of the home timeline. `created_at` is the creation time in UTC.
#[derive(Debug, Clone, PartialEq)]
pub struct TimelinePost {
    pub id: String,
    pub author_id: String,
    pub created_at: NaiveDateTime,
    pub text: String,
    pub public_metrics: PublicMetrics,
}

/// The users that a timeline page refers to.
#[derive(Debug, Clone, PartialEq)]
pub struct TimelineIncludes {
    pub users: Vec<ApiUser>,
}

/// A user as the API reports it.
#[derive(Debug, Clone, PartialEq)]
pub struct ApiUser {
    pub id: String,
    pub name: String,
    pub username: String,
}

/// The answer to a request for the logged-in user.
#[derive(Debug, Clone, PartialEq)]
pub struct CurrentUserResponse {
    pub data: UserInfo,
}

/// The logged-in user.
#[derive(Debug, Clone, PartialEq)]
pub struct UserInfo {
    pub id: String,
    pub username: String,
}

/// A post as the client shows it.
#[derive(Debug, Clone, PartialEq)]
pub struct Tweet {
    pub id: String,
    pub name: String,
    pub handle: String,
    pub time: NaiveDateTime,
    pub body: String,
    pub replies: u64,
    pub retweets: u64,
    pub likes: u64,
    pub liked: bool,
    pub retweeted: bool,
}

impl Tweet {
    /// A copy of this post.
    pub fn duplicate(&self) -> (t: Tweet)
        ensures
            t == *self,
    {
        Tweet {
            id: self.id.clone(),
            name: self.name.clone(),
            handle: self.handle.clone(),
            time: self.time,
            body: self.body.clone(),
            replies: self.replies,
            retweets: self.retweets,
            likes: self.likes,
            liked: self.liked,
            retweeted: self.retweeted,
        }
    }
}

/// The counters the API reports for a post.
#[derive(Debug, Clone, Copy, PartialEq, Eq, Structural)]
pub struct PublicMetrics {
    pub reply_count: u64,
    pub retweet_count: u64,
    pub like_count: u64,
}

/// One page of post identifiers.
#[derive(Debug, Clone, PartialEq)]
pub struct IdPage {
    pub data: Vec<PostId>,
    pub meta: PaginationMeta,
}

/// The identifier of a post.
#[derive(Debug, Clone, PartialEq)]
pub struct PostId {
    pub id: String,
}

/// Where the next page starts, if there is one.
#[derive(Debug, Clone, PartialEq)]
pub struct PaginationMeta {
    pub next_token: Option<String>,
}

} // verus!
