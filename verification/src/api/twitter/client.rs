//! The requests the client sends to the X API, how their answers are judged,
//! and how the answers become the posts the client shows.

use vstd::prelude::*;
use vstd::string::StringExecFns;
use crate::api::twitter::models::{
    ApiUser, CreatePostOptions, CreatePostRequest, IdPage, PaginationMeta, TimelineIncludes,
    TimelinePost, TimelineResponse, Tweet, TweetIdRequest,
};
use crate::api::twitter::time::{rfc3339_of_timestamp, utc_rfc3339};
use crate::text::{decimal, str_eq};
use crate::utils::application_error::ApplicationError;

verus! {

/// The address of the X API when no other is given.
pub const DEFAULT_BASE_URL: &'static str = "https://api.x.com";

/// The HTTP method of a request.
#[derive(Debug, Clone, Copy, PartialEq, Eq, Structural)]
pub enum HttpMethod {
    Get,
    Post,
    Delete,
}

/// The JSON body of a request, if it has one.
#[derive(Debug, Clone, PartialEq)]
pub enum RequestBody {
    Empty,
    TweetId(TweetIdRequest),
    CreatePost(CreatePostRequest),
}

/// A request to the X API: where it goes, with which token, query and body,
/// and what it is for (for error messages).
#[derive(Debug, Clone, PartialEq)]
pub struct ApiCall {
    pub method: HttpMethod,
    pub url: String,
    pub bearer_token: String,
    pub query: Vec<(String, String)>,
    pub body: RequestBody,
    pub action: String,
}

/// A client of the X API: the access token and the address it talks to.
#[derive(Debug, Clone)]
pub struct TwitterClient {
    access_token: String,
    base_url: String,
}

/// The abstract content of a [`TwitterClient`].
pub struct TwitterClientView {
    pub access_token: Seq<char>,
    pub base_url: Seq<char>,
}

impl View for TwitterClient {
    type V = TwitterClientView;

    closed spec fn view(&self) -> TwitterClientView {
        TwitterClientView { access_token: self.access_token@, base_url: self.base_url@ }
    }
}

/// The query pairs of a request, as character sequences.
pub open spec fn query_views(q: Seq<(String, String)>) -> Seq<(Seq<char>, Seq<char>)> {
    q.map_values(|p: (String, String)| (p.0@, p.1@))
}

/// `call` is a request with `method` to `url`, carrying the token of `c`, the
/// query `query`, the body `body`, for `action`.
pub open spec fn is_call(
    call: ApiCall,
    c: TwitterClientView,
    method: HttpMethod,
    url: Seq<char>,
    query: Seq<(Seq<char>, Seq<char>)>,
    action: Seq<char>,
) -> bool {
    &&& call.method == method
    &&& call.url@ == url
    &&& call.bearer_token@ == c.access_token
    &&& query_views(call.query@) == query
    &&& call.action@ == action
}

/// The query of a timeline page request.
pub open spec fn timeline_query(start_time: Seq<char>, end_time: Seq<char>) -> Seq<(Seq<char>, Seq<char>)> {
    seq![
        ("max_results"@, "100"@),
        ("start_time"@, start_time),
        ("end_time"@, end_time),
        ("exclude"@, "retweets"@),
        ("tweet.fields"@, "created_at,author_id,public_metrics"@),
        ("expansions"@, "author_id"@),
        ("user.fields"@, "name,username"@),
    ]
}

/// `query` followed by the pagination token, if there is one.
pub open spec fn with_token(query: Seq<(Seq<char>, Seq<char>)>, token: Option<Seq<char>>) -> Seq<(Seq<char>, Seq<char>)> {
    match token {
        Some(t) => query.push(("pagination_token"@, t)),
        None => query,
    }
}

/// An optional token as characters.
pub open spec fn token_view(token: Option<&str>) -> Option<Seq<char>> {
    match token {
        Some(t) => Some(t@),
        None => None,
    }
}

/// A paged request carries its base query unchanged; with a token, exactly
/// one more pair follows it, ("pagination_token", token), whatever the length
/// of the base query.
pub proof fn law_token_follows_query(query: Seq<(Seq<char>, Seq<char>)>, token: Option<Seq<char>>)
    ensures
        match token {
            Some(t) => {
                let q = with_token(query, token);
                &&& q.len() == query.len() + 1
                &&& forall|i: int| 0 <= i < query.len() ==> #[trigger] q[i] == query[i]
                &&& q[query.len() as int] == ("pagination_token"@, t)
            },
            None => with_token(query, token) == query,
        },
{
}

/// Whether an HTTP status is a success (200 to 299).
pub open spec fn is_success_status(status: u16) -> bool {
    200 <= status <= 299
}

/// The reason phrase reqwest prints for an HTTP status: its canonical reason,
/// or "<unknown status code>" for a code without one.
pub uninterp spec fn http_status_reason(code: u16) -> Seq<char>;

/// The text of an HTTP status as reqwest prints it: the code, a space, and
/// the reason phrase.
pub open spec fn http_status_text(code: u16) -> Seq<char> {
    decimal(code as nat) + " "@ + http_status_reason(code)
}

/// Calls reqwest's `StatusCode::from_u16` (which accepts 100 to 999) and
/// prints the status with its `Display`: the code in decimal, a space, and
/// the canonical reason. Which reason goes with which code is only named
/// here, by [`http_status_reason`].
#[verifier::external_body]
fn status_text(code: u16) -> (s: String)
    requires
        100 <= code <= 999,
    ensures
        s@ == decimal(code as nat) + " "@ + http_status_reason(code),
{
    match reqwest::StatusCode::from_u16(code) {
        Ok(status) => status.to_string(),
        Err(_) => String::new(),
    }
}

/// The message for a refused request whose status is none of 400, 401, 403
/// and 404: it names the action and the status, then the response text.
pub open spec fn unexpected_status_text(status: u16, response_text: Seq<char>, action: Seq<char>) -> Seq<char> {
    "Failed to "@ + action + ". X API returned HTTP "@ + http_status_text(status) + ": "@ + response_text
}

/// The message of a request that could not be sent or whose answer could
/// not be read.
pub open spec fn transport_error_text(action: Seq<char>, error_text: Seq<char>) -> Seq<char> {
    "Failed to "@ + action + ". Received error: "@ + error_text
}

/// The message of a retweet that failed.
pub open spec fn retweet_error_text(tweet_id: Seq<char>, error_text: Seq<char>) -> Seq<char> {
    "Failed to retweet post "@ + tweet_id + ". Received error: "@ + error_text
}

fn pair(a: &str, b: &str) -> (p: (String, String))
    ensures
        p.0@ == a@,
        p.1@ == b@,
{
    (a.to_owned(), b.to_owned())
}

fn push_token(query: &mut Vec<(String, String)>, next_token: Option<&str>)
    ensures
        query_views(final(query)@) == with_token(query_views(old(query)@), token_view(next_token)),
        match next_token {
            Some(t) => final(query)@.len() == old(query)@.len() + 1
                && final(query)@.subrange(0, old(query)@.len() as int) == old(query)@
                && final(query)@.last().0@ == "pagination_token"@
                && final(query)@.last().1@ == t@,
            None => final(query)@ == old(query)@,
        },
{
    match next_token {
        Some(token) => {
            query.push(pair("pagination_token", token));
            proof {
                assert(query_views(query@) =~= query_views(old(query)@).push(("pagination_token"@, token@)));
            }
        },
        None => {},
    }
}

impl TwitterClient {
    /// A client with `access_token`, talking to `alternative_base_url` or, if
    /// none is given, to [`DEFAULT_BASE_URL`].
    pub fn new(access_token: String, alternative_base_url: Option<String>) -> (c: Self)
        ensures
            c@.access_token == access_token@,
            c@.base_url == match alternative_base_url {
                Some(u) => u@,
                None => DEFAULT_BASE_URL@,
            },
    {
        let base_url = match alternative_base_url {
            Some(u) => u,
            None => DEFAULT_BASE_URL.to_owned(),
        };
        TwitterClient { access_token, base_url }
    }

    /// The address the client talks to.
    pub fn base_url(&self) -> (s: &str)
        ensures
            s@ == self@.base_url,
    {
        self.base_url.as_str()
    }

    /// The access token.
    pub fn access_token(&self) -> (s: &str)
        ensures
            s@ == self@.access_token,
    {
        self.access_token.as_str()
    }

    fn url(&self, path: &str) -> (u: String)
        ensures
            u@ == self@.base_url + path@,
    {
        let mut u = self.base_url.clone();
        u.append(path);
        u
    }

    fn call(&self, method: HttpMethod, url: String, query: Vec<(String, String)>, body: RequestBody, action: &str) -> (c: ApiCall)
        ensures
            is_call(c, self@, method, url@, query_views(query@), action@),
            c.body == body,
    {
        ApiCall { method, url, bearer_token: self.access_token.clone(), query, body, action: action.to_owned() }
    }

    /// The request for the logged-in user.
    pub fn get_current_user_request(&self) -> (c: ApiCall)
        ensures
            is_call(c, self@, HttpMethod::Get, self@.base_url + "/2/users/me"@, seq![], "retrieve user info"@),
            c.body == RequestBody::Empty,
    {
        let q: Vec<(String, String)> = Vec::new();
        proof { assert(query_views(q@) =~= seq![]); }
        self.call(HttpMethod::Get, self.url("/2/users/me"), q, RequestBody::Empty, "retrieve user info")
    }

    /// The request that likes the post `tweet_id` for the user `user_id`.
    pub fn like_post_request(&self, tweet_id: &str, user_id: &str) -> (c: ApiCall)
        ensures
            is_call(c, self@, HttpMethod::Post, self@.base_url + "/2/users/"@ + user_id@ + "/likes"@, seq![], "like post"@),
            c.body matches RequestBody::TweetId(b) && b.tweet_id@ == tweet_id@,
    {
        let mut u = self.url("/2/users/");
        u.append(user_id);
        u.append("/likes");
        let q: Vec<(String, String)> = Vec::new();
        proof { assert(query_views(q@) =~= seq![]); }
        self.call(HttpMethod::Post, u, q, RequestBody::TweetId(TweetIdRequest { tweet_id: tweet_id.to_owned() }), "like post")
    }

    /// The request that removes the like of the post `tweet_id` by the user
    /// `user_id`.
    pub fn unlike_post_request(&self, tweet_id: &str, user_id: &str) -> (c: ApiCall)
        ensures
            is_call(c, self@, HttpMethod::Delete, self@.base_url + "/2/users/"@ + user_id@ + "/likes/"@ + tweet_id@, seq![], "unlike post"@),
            c.body == RequestBody::Empty,
    {
        let mut u = self.url("/2/users/");
        u.append(user_id);
        u.append("/likes/");
        u.append(tweet_id);
        let q: Vec<(String, String)> = Vec::new();
        proof { assert(query_views(q@) =~= seq![]); }
        self.call(HttpMethod::Delete, u, q, RequestBody::Empty, "unlike post")
    }

    /// The request that publishes `text` with `options`.
    pub fn create_post_request(&self, text: &str, options: CreatePostOptions) -> (c: ApiCall)
        ensures
            is_call(c, self@, HttpMethod::Post, self@.base_url + "/2/tweets"@, seq![], "create post"@),
            c.body matches RequestBody::CreatePost(b) && b.text@ == text@ && b.options == options,
    {
        let q: Vec<(String, String)> = Vec::new();
        proof { assert(query_views(q@) =~= seq![]); }
        let body = RequestBody::CreatePost(CreatePostRequest { text: text.to_owned(), options });
        self.call(HttpMethod::Post, self.url("/2/tweets"), q, body, "create post")
    }

    /// The request that retweets the post `tweet_id` for the user `user_id`.
    pub fn retweet_post_request(&self, tweet_id: &str, user_id: &str) -> (c: ApiCall)
        ensures
            is_call(c, self@, HttpMethod::Post, self@.base_url + "/2/users/"@ + user_id@ + "/retweets"@, seq![], "retweet post"@),
            c.body matches RequestBody::TweetId(b) && b.tweet_id@ == tweet_id@,
    {
        let mut u = self.url("/2/users/");
        u.append(user_id);
        u.append("/retweets");
        let q: Vec<(String, String)> = Vec::new();
        proof { assert(query_views(q@) =~= seq![]); }
        self.call(HttpMethod::Post, u, q, RequestBody::TweetId(TweetIdRequest { tweet_id: tweet_id.to_owned() }), "retweet post")
    }

    /// The request for one page of the home timeline of `user_id` between
    /// `start_time` and `end_time`, without retweets, a hundred posts at most,
    /// from `next_token` on if given.
    pub fn fetch_timeline_request(&self, user_id: &str, start_time: &str, end_time: &str, next_token: Option<&str>) -> (c: ApiCall)
        ensures
            is_call(
                c,
                self@,
                HttpMethod::Get,
                self@.base_url + "/2/users/"@ + user_id@ + "/timelines/reverse_chronological"@,
                with_token(timeline_query(start_time@, end_time@), token_view(next_token)),
                "fetch home timeline"@,
            ),
            c.body == RequestBody::Empty,
    {
        let mut u = self.url("/2/users/");
        u.append(user_id);
        u.append("/timelines/reverse_chronological");
        let mut q: Vec<(String, String)> = Vec::new();
        q.push(pair("max_results", "100"));
        q.push(pair("start_time", start_time));
        q.push(pair("end_time", end_time));
        q.push(pair("exclude", "retweets"));
        q.push(pair("tweet.fields", "created_at,author_id,public_metrics"));
        q.push(pair("expansions", "author_id"));
        q.push(pair("user.fields", "name,username"));
        proof { assert(query_views(q@) =~= timeline_query(start_time@, end_time@)); }
        push_token(&mut q, next_token);
        self.call(HttpMethod::Get, u, q, RequestBody::Empty, "fetch home timeline")
    }

    /// The request for one page of the posts `user_id` liked, a hundred at
    /// most, from `next_token` on if given.
    pub fn fetch_liked_post_ids_request(&self, user_id: &str, next_token: Option<&str>) -> (c: ApiCall)
        ensures
            is_call(
                c,
                self@,
                HttpMethod::Get,
                self@.base_url + "/2/users/"@ + user_id@ + "/liked_tweets"@,
                with_token(seq![("max_results"@, "100"@)], token_view(next_token)),
                "fetch liked posts"@,
            ),
            c.body == RequestBody::Empty,
    {
        let mut u = self.url("/2/users/");
        u.append(user_id);
        u.append("/liked_tweets");
        let mut q: Vec<(String, String)> = Vec::new();
        q.push(pair("max_results", "100"));
        proof { assert(query_views(q@) =~= seq![("max_results"@, "100"@)]); }
        push_token(&mut q, next_token);
        self.call(HttpMethod::Get, u, q, RequestBody::Empty, "fetch liked posts")
    }
}

/// The seconds in a day.
pub const SECONDS_PER_DAY: i64 = 86400;

/// The start, in seconds since the Unix epoch, of the UTC day that holds the
/// instant `now`.
pub open spec fn utc_day_start(now: int) -> int {
    now - now % (SECONDS_PER_DAY as int)
}

/// The window of the home timeline for the instant `now`: from the start of
/// the previous UTC day to the start of the next one, each written in RFC
/// 3339; `None` when a bound leaves the range of `i64` or chrono cannot write
/// it.
pub open spec fn timeline_window_of(now: i64) -> Option<(Seq<char>, Seq<char>)> {
    let start = utc_day_start(now as int) - SECONDS_PER_DAY;
    let end = utc_day_start(now as int) + SECONDS_PER_DAY;
    if i64::MIN <= start && end <= i64::MAX {
        match (utc_rfc3339(start as i64), utc_rfc3339(end as i64)) {
            (Some(a), Some(b)) => Some((a, b)),
            _ => None,
        }
    } else {
        None
    }
}

/// The `start_time` and `end_time` of the home timeline when the clock reads
/// `now_secs` seconds since the Unix epoch: the start of yesterday and the
/// start of tomorrow, in UTC.
pub fn timeline_window(now_secs: i64) -> (r: Option<(String, String)>)
    ensures
        match r {
            Some((a, b)) => timeline_window_of(now_secs) == Some((a@, b@)),
            None => timeline_window_of(now_secs) is None,
        },
{
    let into_day = match now_secs.checked_rem_euclid(SECONDS_PER_DAY) {
        Some(x) => x,
        None => return None,
    };
    let day_start = match now_secs.checked_sub(into_day) {
        Some(x) => x,
        None => return None,
    };
    let start = match day_start.checked_sub(SECONDS_PER_DAY) {
        Some(x) => x,
        None => return None,
    };
    let end = match day_start.checked_add(SECONDS_PER_DAY) {
        Some(x) => x,
        None => return None,
    };
    match (rfc3339_of_timestamp(start), rfc3339_of_timestamp(end)) {
        (Some(a), Some(b)) => Some((a, b)),
        _ => None,
    }
}

/// Whether `status` is a success.
pub fn is_success(status: u16) -> (b: bool)
    ensures
        b == is_success_status(status),
{
    200 <= status && status <= 299
}

/// The error for an answer with the refused `status` and `response_text`, to
/// a request made for `action`.
pub fn send_empty_error(status: u16, response_text: String, action: &str) -> (e: ApplicationError)
    requires
        100 <= status <= 999,
        !is_success_status(status),
    ensures
        status == 400 ==> (e matches ApplicationError::XApiBadRequestError(m) && m@ == response_text@),
        status == 401 ==> (e matches ApplicationError::XApiUnauthorizedError(m) && m@ == response_text@),
        status == 403 ==> (e matches ApplicationError::XApiForbiddenError(m) && m@ == response_text@),
        status == 404 ==> (e matches ApplicationError::XApiNotFoundError(m) && m@ == response_text@),
        status != 400 && status != 401 && status != 403 && status != 404 ==> (e matches ApplicationError::XApiUnexpectedError(m)
            && m@ == unexpected_status_text(status, response_text@, action@)),
{
    if status == 400 {
        ApplicationError::XApiBadRequestError(response_text)
    } else if status == 401 {
        ApplicationError::XApiUnauthorizedError(response_text)
    } else if status == 403 {
        ApplicationError::XApiForbiddenError(response_text)
    } else if status == 404 {
        ApplicationError::XApiNotFoundError(response_text)
    } else {
        let mut m = "Failed to ".to_owned();
        m.append(action);
        m.append(". X API returned HTTP ");
        let s = status_text(status);
        m.append(s.as_str());
        m.append(": ");
        m.append(response_text.as_str());
        ApplicationError::XApiUnexpectedError(m)
    }
}

/// The error for a request made for `action` that could not be sent, or
/// whose answer could not be read, with the text `error_text`.
pub fn transport_error(action: &str, error_text: &str) -> (e: ApplicationError)
    ensures
        e matches ApplicationError::XApiUnexpectedError(m) && m@ == transport_error_text(action@, error_text@),
{
    let mut m = "Failed to ".to_owned();
    m.append(action);
    m.append(". Received error: ");
    m.append(error_text);
    ApplicationError::XApiUnexpectedError(m)
}

/// The error for a retweet of `tweet_id` that failed with `error_text`.
pub fn retweet_error(tweet_id: &str, error_text: &str) -> (e: ApplicationError)
    ensures
        e matches ApplicationError::XApiUnexpectedError(m) && m@ == retweet_error_text(tweet_id@, error_text@),
{
    let mut m = "Failed to retweet post ".to_owned();
    m.append(tweet_id);
    m.append(". Received error: ");
    m.append(error_text);
    ApplicationError::XApiUnexpectedError(m)
}


/// `i` is the last position in `users` of a user with identifier `id`: the
/// one a map built from `users` in order keeps.
pub open spec fn is_last_with_id(users: Seq<ApiUser>, id: Seq<char>, i: int) -> bool {
    &&& 0 <= i < users.len()
    &&& users[i].id@ == id
    &&& forall|j: int| i < j < users.len() ==> users[j].id@ != id
}

/// The last position in `users` of a user with identifier `id`.
pub open spec fn last_user_index(users: Seq<ApiUser>, id: Seq<char>) -> int {
    choose|i: int| is_last_with_id(users, id, i)
}

/// There is one last position.
pub proof fn lemma_last_with_id_unique(users: Seq<ApiUser>, id: Seq<char>, i: int)
    requires
        is_last_with_id(users, id, i),
    ensures
        last_user_index(users, id) == i,
{
    let k = last_user_index(users, id);
    assert(is_last_with_id(users, id, k));
    if k < i {
        assert(users[i].id@ != id);
    } else if i < k {
        assert(users[k].id@ != id);
    }
}

/// Whether some user in `users` has the identifier `id`.
pub open spec fn has_user(users: Seq<ApiUser>, id: Seq<char>) -> bool {
    exists|i: int| 0 <= i < users.len() && users[i].id@ == id
}

/// The identifiers of `ids`, as character sequences.
pub open spec fn id_views(ids: Seq<String>) -> Seq<Seq<char>> {
    ids.map_values(|s: String| s@)
}

/// `t` shows `post` by `user`, liked when `liked`: the post's identifier,
/// time, text and counters, the user's name, and "@" before the username.
pub open spec fn shows_post(t: Tweet, post: TimelinePost, user: ApiUser, liked: bool) -> bool {
    &&& t.id@ == post.id@
    &&& t.name@ == user.name@
    &&& t.handle@ == "@"@ + user.username@
    &&& t.time == post.created_at
    &&& t.body@ == post.text@
    &&& t.replies == post.public_metrics.reply_count
    &&& t.retweets == post.public_metrics.retweet_count
    &&& t.likes == post.public_metrics.like_count
    &&& t.liked == liked
    &&& !t.retweeted
}

/// The message when the API did not return the author of a post.
pub open spec fn missing_author_text(author_id: Seq<char>, post_id: Seq<char>) -> Seq<char> {
    "The API did not return author "@ + author_id + " for post "@ + post_id
}

/// The posts of `timeline`, each shown with its author (the last user in
/// `includes` with the post's author identifier) and liked when its
/// identifier is among `liked_ids`. When the author of a post is missing,
/// the first such post gives the error instead.
pub fn tweets_from_timeline(timeline: &TimelineResponse, liked_ids: &Vec<String>) -> (r: Result<Vec<Tweet>, ApplicationError>)
    ensures
        match r {
            Ok(tweets) => {
                &&& forall|k: int| 0 <= k < timeline.data@.len() ==> has_user(timeline.includes.users@, #[trigger] timeline.data@[k].author_id@)
                &&& tweets@.len() == timeline.data@.len()
                &&& forall|k: int| 0 <= k < tweets@.len() ==> shows_post(
                    #[trigger] tweets@[k],
                    timeline.data@[k],
                    timeline.includes.users@[last_user_index(timeline.includes.users@, timeline.data@[k].author_id@)],
                    id_views(liked_ids@).contains(timeline.data@[k].id@),
                )
            },
            Err(e) => exists|k: int| {
                &&& 0 <= k < timeline.data@.len()
                &&& !has_user(timeline.includes.users@, #[trigger] timeline.data@[k].author_id@)
                &&& forall|j: int| 0 <= j < k ==> has_user(timeline.includes.users@, #[trigger] timeline.data@[j].author_id@)
                &&& e matches ApplicationError::XApiUnexpectedError(m)
                &&& m@ == missing_author_text(timeline.data@[k].author_id@, timeline.data@[k].id@)
            },
        },
{
    let posts = &timeline.data;
    let users = &timeline.includes.users;
    let n = posts.len();
    let mut tweets: Vec<Tweet> = Vec::new();
    let mut k: usize = 0;
    while k < n
        invariant
            n == posts@.len(),
            posts == &timeline.data,
            users == &timeline.includes.users,
            0 <= k <= n,
            tweets@.len() == k,
            forall|j: int| 0 <= j < k ==> has_user(users@, #[trigger] posts@[j].author_id@),
            forall|j: int| 0 <= j < k ==> shows_post(
                #[trigger] tweets@[j],
                posts@[j],
                users@[last_user_index(users@, posts@[j].author_id@)],
                id_views(liked_ids@).contains(posts@[j].id@),
            ),
        decreases n - k,
    {
        let post = &posts[k];
        match last_user_with_id(users, post.author_id.as_str()) {
            Some(u) => {
                let user = &users[u];
                let mut handle = "@".to_owned();
                handle.append(user.username.as_str());
                let liked = contains_id(liked_ids, post.id.as_str());
                let tweet = Tweet {
                    id: post.id.clone(),
                    name: user.name.clone(),
                    handle,
                    time: post.created_at,
                    body: post.text.clone(),
                    replies: post.public_metrics.reply_count,
                    retweets: post.public_metrics.retweet_count,
                    likes: post.public_metrics.like_count,
                    liked,
                    retweeted: false,
                };
                let ghost old_tweets = tweets@;
                tweets.push(tweet);
                proof {
                    lemma_last_with_id_unique(users@, posts@[k as int].author_id@, u as int);
                    assert forall|j: int| 0 <= j < k + 1 implies shows_post(
                        #[trigger] tweets@[j],
                        posts@[j],
                        users@[last_user_index(users@, posts@[j].author_id@)],
                        id_views(liked_ids@).contains(posts@[j].id@),
                    ) by {
                        if j < k {
                            assert(tweets@[j] == old_tweets[j]);
                        }
                    }
                }
            },
            None => {
                let mut m = "The API did not return author ".to_owned();
                m.append(post.author_id.as_str());
                m.append(" for post ");
                m.append(post.id.as_str());
                return Err(ApplicationError::XApiUnexpectedError(m));
            },
        }
        k = k + 1;
    }
    Ok(tweets)
}

/// The position of the last user in `users` with identifier `id`.
fn last_user_with_id(users: &Vec<ApiUser>, id: &str) -> (r: Option<usize>)
    ensures
        match r {
            Some(i) => is_last_with_id(users@, id@, i as int),
            None => !has_user(users@, id@),
        },
{
    let mut i = users.len();
    while i > 0
        invariant
            i <= users@.len(),
            forall|j: int| i <= j < users@.len() ==> users@[j].id@ != id@,
        decreases i,
    {
        i = i - 1;
        if str_eq(users[i].id.as_str(), id) {
            return Some(i);
        }
    }
    None
}

/// Whether `id` is among `ids`.
fn contains_id(ids: &Vec<String>, id: &str) -> (b: bool)
    ensures
        b == id_views(ids@).contains(id@),
{
    let n = ids.len();
    let mut i: usize = 0;
    while i < n
        invariant
            n == ids@.len(),
            0 <= i <= n,
            forall|j: int| 0 <= j < i ==> ids@[j]@ != id@,
        decreases n - i,
    {
        if str_eq(ids[i].as_str(), id) {
            proof {
                assert(id_views(ids@)[i as int] == id@);
            }
            return true;
        }
        i = i + 1;
    }
    proof {
        if id_views(ids@).contains(id@) {
            let j = choose|j: int| 0 <= j < id_views(ids@).len() && id_views(ids@)[j] == id@;
            assert(ids@[j]@ == id@);
        }
    }
    false
}

/// An empty timeline, to which pages are added.
pub fn empty_timeline() -> (t: TimelineResponse)
    ensures
        t.data@.len() == 0,
        t.includes.users@.len() == 0,
        t.meta.next_token is None,
{
    TimelineResponse {
        data: Vec::new(),
        includes: TimelineIncludes { users: Vec::new() },
        meta: PaginationMeta { next_token: None },
    }
}

/// Adds the posts and users of `page` to `timeline`, and returns the token
/// of the next page, if there is one.
pub fn merge_timeline_page(timeline: &mut TimelineResponse, page: TimelineResponse) -> (next: Option<String>)
    ensures
        final(timeline).data@ == old(timeline).data@ + page.data@,
        final(timeline).includes.users@ == old(timeline).includes.users@ + page.includes.users@,
        final(timeline).meta == old(timeline).meta,
        next == page.meta.next_token,
{
    let TimelineResponse { data, includes, meta } = page;
    let mut data = data;
    let mut users = includes.users;
    timeline.data.append(&mut data);
    timeline.includes.users.append(&mut users);
    meta.next_token
}

/// Adds the identifiers of `page` to `liked_ids`, and returns the token of
/// the next page, if there is one.
pub fn merge_liked_page(liked_ids: &mut Vec<String>, page: IdPage) -> (next: Option<String>)
    ensures
        final(liked_ids)@ == old(liked_ids)@ + page.data@.map_values(|p: crate::api::twitter::models::PostId| p.id),
        next == page.meta.next_token,
{
    let IdPage { data, meta } = page;
    let n = data.len();
    let mut i: usize = 0;
    let ghost start = liked_ids@;
    while i < n
        invariant
            n == data@.len(),
            0 <= i <= n,
            liked_ids@ == start + data@.take(i as int).map_values(|p: crate::api::twitter::models::PostId| p.id),
        decreases n - i,
    {
        liked_ids.push(data[i].id.clone());
        proof {
            assert(data@.take(i + 1).map_values(|p: crate::api::twitter::models::PostId| p.id)
                =~= data@.take(i as int).map_values(|p: crate::api::twitter::models::PostId| p.id).push(data@[i as int].id));
        }
        i = i + 1;
    }
    proof {
        assert(data@.take(n as int) =~= data@);
    }
    meta.next_token
}

} // verus!
