//! The checks of the OAuth login that need no network: the addresses of the
//! settings, the scopes asked for and the CSRF state of the callback.

use vstd::prelude::*;
use crate::api::auth::config::TwitterConfig;
use crate::api::local::client::{parse_url, url_parts};
use crate::text::str_eq;
use crate::utils::application_error::ApplicationError;

verus! {

/// The scopes the client asks for.
pub open spec fn required_scopes() -> Seq<Seq<char>> {
    seq![
        "tweet.read"@,
        "tweet.write"@,
        "users.read"@,
        "like.read"@,
        "like.write"@,
        "follows.read"@,
        "offline.access"@,
    ]
}

/// The scopes the client asks for at login.
pub fn required_scopes_list() -> (v: Vec<&'static str>)
    ensures
        v@.len() == required_scopes().len(),
        forall|i: int| 0 <= i < v@.len() ==> (#[trigger] v@[i])@ == required_scopes()[i],
{
    let mut v: Vec<&'static str> = Vec::new();
    v.push("tweet.read");
    v.push("tweet.write");
    v.push("users.read");
    v.push("like.read");
    v.push("like.write");
    v.push("follows.read");
    v.push("offline.access");
    v
}

/// Checks that the state the callback brought is the CSRF token the login
/// started with; any other state refuses the login.
pub fn check_callback_state(state: &str, expected_csrf_token: &str) -> (r: Result<(), ApplicationError>)
    ensures
        r is Ok <==> state@ == expected_csrf_token@,
        r is Err ==> r == Err::<(), ApplicationError>(ApplicationError::CSRFTokenMismatch),
{
    if !str_eq(state, expected_csrf_token) {
        return Err(ApplicationError::CSRFTokenMismatch);
    }
    Ok(())
}

/// The error of the first of `urls`, in order, that does not parse as a URL,
/// or `None` when all of them parse.
pub open spec fn first_url_error(urls: Seq<Seq<char>>) -> Option<Seq<char>>
    decreases urls.len(),
{
    if urls.len() == 0 {
        None
    } else {
        match url_parts(urls[0]) {
            Err(e) => Some(e),
            Ok(_) => first_url_error(urls.drop_first()),
        }
    }
}

/// The OAuth addresses of `config`, in the order oauth2 parses them when the
/// client is built: authorize, redirect, token.
pub open spec fn oauth_urls(config: TwitterConfig) -> Seq<Seq<char>> {
    seq![config.authorize_url@, config.redirect_url@, config.token_url@]
}

fn url_error(url: &str) -> (r: Option<String>)
    ensures
        match url_parts(url@) {
            Err(e) => r matches Some(m) && m@ == e,
            Ok(_) => r is None,
        },
{
    match parse_url(url) {
        Err(e) => Some(e),
        Ok(_) => None,
    }
}

/// Checks that the OAuth addresses of `config` parse as oauth2 parses them
/// (authorize, redirect, token, in that order); the first that does not
/// parse gives its error.
pub fn check_oauth_urls(config: &TwitterConfig) -> (r: Result<(), ApplicationError>)
    ensures
        match first_url_error(oauth_urls(*config)) {
            Some(e) => r matches Err(ApplicationError::InvalidConfigurationOauth2(m)) && m@ == e,
            None => r is Ok,
        },
{
    proof {
        let urls = oauth_urls(*config);
        assert(urls.drop_first() =~= seq![config.redirect_url@, config.token_url@]);
        assert(urls.drop_first().drop_first() =~= seq![config.token_url@]);
        assert(urls.drop_first().drop_first().drop_first() =~= Seq::<Seq<char>>::empty());
        reveal_with_fuel(first_url_error, 4);
    }
    if let Some(e) = url_error(config.authorize_url.as_str()) {
        return Err(ApplicationError::InvalidConfigurationOauth2(e));
    }
    if let Some(e) = url_error(config.redirect_url.as_str()) {
        return Err(ApplicationError::InvalidConfigurationOauth2(e));
    }
    if let Some(e) = url_error(config.token_url.as_str()) {
        return Err(ApplicationError::InvalidConfigurationOauth2(e));
    }
    Ok(())
}

} // verus!
