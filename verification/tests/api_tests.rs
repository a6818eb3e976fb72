use chrono::NaiveDateTime;
use twitter_tui::api::auth::client::{check_callback_state, check_oauth_urls, required_scopes_list};
use twitter_tui::api::auth::config::TwitterConfig;
use twitter_tui::api::local::client::{CallbackDecision, LocalClient};
use twitter_tui::api::twitter::browser::{open_tweet_error, tweet_url};
use twitter_tui::api::twitter::client::{
    HttpMethod, RequestBody, TwitterClient, empty_timeline, is_success, merge_liked_page,
    merge_timeline_page, retweet_error, send_empty_error, timeline_window, transport_error,
    tweets_from_timeline,
};
use twitter_tui::api::twitter::models::{
    ApiUser, CreatePostOptions, CreatePostRequest, IdPage, PaginationMeta, PostId, PublicMetrics,
    TimelineIncludes, TimelinePost, TimelineResponse, Tweet, TweetIdRequest,
};
use twitter_tui::text::to_decimal;
use twitter_tui::utils::application_error::ApplicationError;

fn client() -> TwitterClient {
    TwitterClient::new(String::from("test-token"), Some(String::from("http://127.0.0.1:9999")))
}

#[test]
fn like_post_should_send_correct_request() {
    let tweet_id = "2";
    let user_id = "1";
    let call = client().like_post_request(tweet_id, user_id);
    assert_eq!(call.method, HttpMethod::Post);
    assert_eq!(call.bearer_token, "test-token");
    assert_eq!(call.url, format!("http://127.0.0.1:9999/2/users/{user_id}/likes"));
    assert_eq!(call.body, RequestBody::TweetId(TweetIdRequest { tweet_id: tweet_id.to_owned() }));
    assert_eq!(call.action, "like post");
}

#[test]
fn unlike_post_should_send_correct_request() {
    let tweet_id = "2";
    let user_id = "1";
    let call = client().unlike_post_request(tweet_id, user_id);
    assert_eq!(call.method, HttpMethod::Delete);
    assert_eq!(call.bearer_token, "test-token");
    assert_eq!(call.url, format!("http://127.0.0.1:9999/2/users/{user_id}/likes/{tweet_id}"));
    assert_eq!(call.body, RequestBody::Empty);
}

#[test]
fn create_post_should_send_correct_request() {
    for share_with_followers in [true, false] {
        for paid_partnership in [true, false] {
            for nullcast in [true, false] {
                let options = CreatePostOptions { share_with_followers, paid_partnership, nullcast };
                let text = "thisisatest";
                let call = client().create_post_request(text, options);
                assert_eq!(call.method, HttpMethod::Post);
                assert_eq!(call.bearer_token, "test-token");
                assert_eq!(call.url, "http://127.0.0.1:9999/2/tweets");
                assert_eq!(call.body, RequestBody::CreatePost(CreatePostRequest { text: text.to_owned(), options }));
            }
        }
    }
}

#[test]
fn default_base_url_is_the_x_api() {
    let c = TwitterClient::new(String::from("t"), None);
    assert_eq!(c.base_url(), "https://api.x.com");
    assert_eq!(c.get_current_user_request().url, "https://api.x.com/2/users/me");
    assert_eq!(c.retweet_post_request("9", "8").url, "https://api.x.com/2/users/8/retweets");
}

#[test]
fn paged_requests_carry_their_query() {
    let first = client().fetch_timeline_request("1", "start", "end", None);
    let pairs: Vec<(&str, &str)> = first.query.iter().map(|(k, v)| (k.as_str(), v.as_str())).collect();
    assert_eq!(
        pairs,
        vec![
            ("max_results", "100"),
            ("start_time", "start"),
            ("end_time", "end"),
            ("exclude", "retweets"),
            ("tweet.fields", "created_at,author_id,public_metrics"),
            ("expansions", "author_id"),
            ("user.fields", "name,username"),
        ]
    );
    assert_eq!(first.url, "http://127.0.0.1:9999/2/users/1/timelines/reverse_chronological");
    let next = client().fetch_liked_post_ids_request("1", Some("tok"));
    assert_eq!(next.url, "http://127.0.0.1:9999/2/users/1/liked_tweets");
    assert_eq!(
        next.query,
        vec![(String::from("max_results"), String::from("100")), (String::from("pagination_token"), String::from("tok"))]
    );
}

#[test]
fn refused_statuses_map_to_errors() {
    assert!(is_success(200) && is_success(204) && !is_success(199) && !is_success(300));
    assert_eq!(send_empty_error(400, String::from("b"), "x"), ApplicationError::XApiBadRequestError(String::from("b")));
    assert_eq!(send_empty_error(401, String::from("u"), "x"), ApplicationError::XApiUnauthorizedError(String::from("u")));
    assert_eq!(send_empty_error(403, String::from("f"), "x"), ApplicationError::XApiForbiddenError(String::from("f")));
    assert_eq!(send_empty_error(404, String::from("n"), "x"), ApplicationError::XApiNotFoundError(String::from("n")));
    assert_eq!(
        send_empty_error(500, String::from("boom"), "like post"),
        ApplicationError::XApiUnexpectedError(String::from("Failed to like post. X API returned HTTP 500 Internal Server Error: boom"))
    );
    assert_eq!(
        transport_error("fetch liked posts", "timeout"),
        ApplicationError::XApiUnexpectedError(String::from("Failed to fetch liked posts. Received error: timeout"))
    );
    assert_eq!(
        retweet_error("42", "denied"),
        ApplicationError::XApiUnexpectedError(String::from("Failed to retweet post 42. Received error: denied"))
    );
}

fn post(id: &str, author: &str) -> TimelinePost {
    TimelinePost {
        id: id.to_owned(),
        author_id: author.to_owned(),
        created_at: NaiveDateTime::default(),
        text: format!("text {id}"),
        public_metrics: PublicMetrics { reply_count: 1, retweet_count: 2, like_count: 3 },
    }
}

fn user(id: &str, name: &str) -> ApiUser {
    ApiUser { id: id.to_owned(), name: name.to_owned(), username: format!("{name}_handle") }
}

#[test]
fn timeline_posts_become_tweets_with_their_authors() {
    let timeline = TimelineResponse {
        data: vec![post("p1", "a"), post("p2", "b")],
        includes: TimelineIncludes { users: vec![user("a", "Ann"), user("b", "Bob"), user("a", "Anna")] },
        meta: PaginationMeta { next_token: None },
    };
    let liked = vec![String::from("p2")];
    let tweets = tweets_from_timeline(&timeline, &liked).unwrap();
    assert_eq!(
        tweets[0],
        Tweet {
            id: "p1".to_owned(),
            name: "Anna".to_owned(),
            handle: "@Anna_handle".to_owned(),
            time: NaiveDateTime::default(),
            body: "text p1".to_owned(),
            replies: 1,
            retweets: 2,
            likes: 3,
            liked: false,
            retweeted: false,
        }
    );
    assert!(tweets[1].liked);
    assert_eq!(tweets[1].handle, "@Bob_handle");
}

#[test]
fn a_missing_author_is_an_error() {
    let timeline = TimelineResponse {
        data: vec![post("p1", "a"), post("p2", "zz"), post("p3", "yy")],
        includes: TimelineIncludes { users: vec![user("a", "Ann")] },
        meta: PaginationMeta { next_token: None },
    };
    let error = tweets_from_timeline(&timeline, &vec![]).unwrap_err();
    assert_eq!(error, ApplicationError::XApiUnexpectedError(String::from("The API did not return author zz for post p2")));
}

#[test]
fn pages_are_merged_in_order() {
    let mut timeline = empty_timeline();
    let page = TimelineResponse {
        data: vec![post("p1", "a")],
        includes: TimelineIncludes { users: vec![user("a", "Ann")] },
        meta: PaginationMeta { next_token: Some(String::from("next")) },
    };
    assert_eq!(merge_timeline_page(&mut timeline, page), Some(String::from("next")));
    let last = TimelineResponse {
        data: vec![post("p2", "a")],
        includes: TimelineIncludes { users: vec![] },
        meta: PaginationMeta { next_token: None },
    };
    assert_eq!(merge_timeline_page(&mut timeline, last), None);
    assert_eq!(timeline.data.len(), 2);
    assert_eq!(timeline.data[1].id, "p2");

    let mut liked = vec![String::from("x")];
    let ids = IdPage { data: vec![PostId { id: String::from("y") }], meta: PaginationMeta { next_token: None } };
    assert_eq!(merge_liked_page(&mut liked, ids), None);
    assert_eq!(liked, vec![String::from("x"), String::from("y")]);
}

#[test]
fn try_retrieve_state_should_return_correct_result() {
    assert_eq!(LocalClient::try_retrieve_state(&vec![]), None);
    let pairs = vec![(String::from("state"), String::from("test"))];
    assert_eq!(LocalClient::try_retrieve_state(&pairs), Some(String::from("test")));
}

#[test]
fn try_retrieve_code_should_return_correct_result() {
    assert_eq!(LocalClient::try_retrieve_code(&vec![]), None);
    let pairs = vec![
        (String::from("state"), String::from("s")),
        (String::from("code"), String::from("test")),
        (String::from("code"), String::from("later")),
    ];
    assert_eq!(LocalClient::try_retrieve_code(&pairs), Some(String::from("test")));
}

#[test]
fn callback_requests_are_sorted() {
    assert_eq!(
        LocalClient::handle_request("/callback?code=test-code&state=test-state"),
        Ok(CallbackDecision::Respond(Some((String::from("test-code"), String::from("test-state")))))
    );
    assert_eq!(LocalClient::handle_request("/callback?state=partial-state"), Ok(CallbackDecision::Respond(None)));
    assert_eq!(LocalClient::handle_request("/callback?code=partial-code"), Ok(CallbackDecision::Respond(None)));
    assert_eq!(LocalClient::handle_request("/favicon.ico"), Ok(CallbackDecision::Skip));
    assert_eq!(
        LocalClient::handle_request("/callback?code=a%20b&state=s"),
        Ok(CallbackDecision::Respond(Some((String::from("a b"), String::from("s")))))
    );
    assert!(matches!(
        LocalClient::handle_request(":bad"),
        Err(ApplicationError::InvalidConfigurationOauth2(_))
    ));
}

#[test]
fn timeout_message_names_the_missing_values() {
    assert_eq!(
        LocalClient::timeout_error().message(),
        "Unexpected error. The OAuth callback did not contain both code and state"
    );
    assert_eq!(ApplicationError::CSRFTokenMismatch.message(), "CSRF token mismatch.");
}

#[test]
fn callback_state_must_match_the_csrf_token() {
    assert_eq!(check_callback_state("abc", "abc"), Ok(()));
    assert_eq!(check_callback_state("abc", "abd"), Err(ApplicationError::CSRFTokenMismatch));
    assert_eq!(required_scopes_list().len(), 7);
    assert_eq!(required_scopes_list()[6], "offline.access");
}

#[test]
fn config_reads_five_variables_in_order() {
    assert_eq!(TwitterConfig::variable_names()[0], "TWITTER_CONSUMER_CLIENT_ID");
    assert_eq!(TwitterConfig::variable_names()[4], "TWITTER_TOKEN_URL");
    let values = vec![Some(String::from("test")); 5];
    assert_eq!(TwitterConfig::first_missing(&values), None);
    let config = TwitterConfig::from_values(values).expect("all variables are set");
    assert_eq!(config.token_url, "test");
    let partial = vec![Some(String::from("test_1")), None, None, None, None];
    assert_eq!(TwitterConfig::first_missing(&partial), Some(1));
}

#[test]
fn tweet_url_drops_leading_ats() {
    let tweet = Tweet {
        id: "123".to_owned(),
        name: "n".to_owned(),
        handle: "@@user@name".to_owned(),
        time: NaiveDateTime::default(),
        body: String::new(),
        replies: 0,
        retweets: 0,
        likes: 0,
        liked: false,
        retweeted: false,
    };
    assert_eq!(tweet_url(&tweet), "https://x.com/user@name/status/123");
}

#[test]
fn decimal_rendering() {
    assert_eq!(to_decimal(0), "0");
    assert_eq!(to_decimal(7100), "7100");
    assert_eq!(to_decimal(u64::MAX), "18446744073709551615");
}

#[test]
fn timeline_window_spans_yesterday_to_tomorrow_in_utc() {
    // 2015-05-15 01:00:00 UTC
    let window = timeline_window(1431648000 + 3600);
    assert_eq!(
        window,
        Some(("2015-05-14T00:00:00+00:00".to_string(), "2015-05-16T00:00:00+00:00".to_string()))
    );
}

#[test]
fn timeline_window_before_the_epoch_uses_the_earlier_day() {
    // 1969-12-31 23:59:59 UTC
    let window = timeline_window(-1);
    assert_eq!(
        window,
        Some(("1969-12-30T00:00:00+00:00".to_string(), "1970-01-01T00:00:00+00:00".to_string()))
    );
}

#[test]
fn timeline_window_out_of_range_is_none() {
    assert_eq!(timeline_window(i64::MIN), None);
    assert_eq!(timeline_window(i64::MAX), None);
}

fn config_values(set: usize, first: &str) -> Vec<Option<String>> {
    (0..5)
        .map(|i| if i >= set { None } else if i == 0 { Some(first.to_owned()) } else { Some("test".to_owned()) })
        .collect()
}

fn config_from(values: Vec<Option<String>>) -> TwitterConfig {
    TwitterConfig::from_values(values).unwrap_or_else(|message| panic!("{message}"))
}

#[test]
#[should_panic(expected = "Expected environment variable 'TWITTER_CONSUMER_CLIENT_ID' to be set")]
fn from_env_should_fail_when_twitter_consumer_client_id_is_missing() {
    let _ = config_from(config_values(0, "test"));
}

#[test]
#[should_panic(expected = "Expected environment variable 'TWITTER_CONSUMER_SECRET' to be set")]
fn from_env_should_fail_when_twitter_consumer_secret_is_missing() {
    let _ = config_from(config_values(1, "test_1"));
}

#[test]
#[should_panic(expected = "Expected environment variable 'TWITTER_AUTHORIZE_URL' to be set")]
fn from_env_should_fail_when_twitter_authorize_url_is_missing() {
    let _ = config_from(config_values(2, "test"));
}

#[test]
#[should_panic(expected = "Expected environment variable 'TWITTER_REDIRECT_URL' to be set")]
fn from_env_should_fail_when_twitter_redirect_url_is_missing() {
    let _ = config_from(config_values(3, "test"));
}

#[test]
#[should_panic(expected = "Expected environment variable 'TWITTER_TOKEN_URL' to be set")]
fn from_env_should_fail_when_twitter_token_url_is_missing() {
    let _ = config_from(config_values(4, "test"));
}

#[test]
fn from_env_should_not_fail() {
    let client_result = TwitterConfig::from_values(config_values(5, "test"));
    assert!(client_result.is_ok());
}

#[test]
fn config_names_the_first_missing_variable_only() {
    let values = vec![Some("a".to_owned()), None, Some("c".to_owned()), None, Some("e".to_owned())];
    assert_eq!(
        TwitterConfig::from_values(values),
        Err("Expected environment variable 'TWITTER_CONSUMER_SECRET' to be set".to_owned())
    );
}

#[test]
fn open_tweet_error_names_the_address_and_the_cause() {
    let error = open_tweet_error("https://x.com/a/status/1", "no browser");
    assert_eq!(
        error,
        ApplicationError::UnexpectedError("Could not open tweet URL https://x.com/a/status/1: no browser".to_owned())
    );
    assert_eq!(error.message(), "Unexpected error. Could not open tweet URL https://x.com/a/status/1: no browser");
}

fn oauth_config(authorize: &str, redirect: &str, token: &str) -> TwitterConfig {
    TwitterConfig {
        client_id: "id".to_owned(),
        client_secret: "secret".to_owned(),
        authorize_url: authorize.to_owned(),
        redirect_url: redirect.to_owned(),
        token_url: token.to_owned(),
    }
}

#[test]
fn oauth_urls_that_parse_are_accepted() {
    let config = oauth_config(
        "https://x.com/i/oauth2/authorize",
        "http://127.0.0.1:3000/callback",
        "https://api.x.com/2/oauth2/token",
    );
    assert_eq!(check_oauth_urls(&config), Ok(()));
}

#[test]
fn oauth_urls_report_the_first_that_does_not_parse() {
    let config = oauth_config("https://x.com/authorize", "not a url", "also bad");
    assert_eq!(
        check_oauth_urls(&config),
        Err(ApplicationError::InvalidConfigurationOauth2("relative URL without a base".to_owned()))
    );
    let config = oauth_config("https://x.com/authorize", "http://127.0.0.1:3000/callback", "http://[::1");
    assert_eq!(
        check_oauth_urls(&config),
        Err(ApplicationError::InvalidConfigurationOauth2("invalid IPv6 address".to_owned()))
    );
}
