//! The local listener that receives the OAuth callback: which requests it
//! answers, and when it has the code and state it waits for.

use vstd::prelude::*;
use vstd::string::StringExecFns;
use crate::text::str_eq;
use crate::utils::application_error::ApplicationError;

verus! {

/// The path of the OAuth callback.
pub const CALLBACK_URL: &'static str = "/callback";

/// The message when no callback brought both code and state in time.
pub const MISSING_CALLBACK_MESSAGE: &'static str = "The OAuth callback did not contain both code and state";

/// The listener that receives the OAuth callback.
pub struct LocalClient;

/// What to do with one request the listener received.
#[derive(Debug, Clone, PartialEq)]
pub enum CallbackDecision {
    /// Not the callback: leave it unanswered and wait for the next.
    Skip,
    /// The callback: answer it with the success page; with both code and
    /// state, login goes on with them, else the listener waits for the next.
    Respond(Option<(String, String)>),
}

/// The path and the decoded query pairs of a parsed URL, or the text of the
/// parse error.
pub uninterp spec fn url_parts(url: Seq<char>) -> Result<(Seq<char>, Seq<(Seq<char>, Seq<char>)>), Seq<char>>;

/// The query pairs as character sequences.
pub open spec fn pair_views(pairs: Seq<(String, String)>) -> Seq<(Seq<char>, Seq<char>)> {
    pairs.map_values(|p: (String, String)| (p.0@, p.1@))
}

/// Calls url's `Url::parse` on `url`, then reads `path()` and the decoded
/// `query_pairs()`, or the `Display` of the parse error. What they are for
/// each address is only named here, by [`url_parts`].
#[verifier::external_body]
pub(crate) fn parse_url(url: &str) -> (r: Result<(String, Vec<(String, String)>), String>)
    ensures
        match r {
            Ok((path, pairs)) => url_parts(url@) == Ok::<(Seq<char>, Seq<(Seq<char>, Seq<char>)>), Seq<char>>((path@, pair_views(pairs@))),
            Err(e) => url_parts(url@) == Err::<(Seq<char>, Seq<(Seq<char>, Seq<char>)>), Seq<char>>(e@),
        },
{
    match url::Url::parse(url) {
        Ok(parsed) => Ok((
            parsed.path().to_owned(),
            parsed.query_pairs().map(|(k, v)| (k.into_owned(), v.into_owned())).collect(),
        )),
        Err(error) => Err(error.to_string()),
    }
}

/// The value of the first pair named `key`.
pub open spec fn first_value(pairs: Seq<(Seq<char>, Seq<char>)>, key: Seq<char>) -> Option<Seq<char>>
    decreases pairs.len(),
{
    if pairs.len() == 0 {
        None
    } else if pairs[0].0 == key {
        Some(pairs[0].1)
    } else {
        first_value(pairs.drop_first(), key)
    }
}

/// The address of a request whose target is `target`, as the listener reads
/// it.
pub open spec fn callback_address(target: Seq<char>) -> Seq<char> {
    "http://localhost"@ + target
}

/// What to do with a request for `target`: skip it unless its path is the
/// callback; answer the callback, with code and state when both are there.
/// An address that does not parse is an error.
pub open spec fn callback_decision(target: Seq<char>) -> Result<Option<Option<(Seq<char>, Seq<char>)>>, Seq<char>> {
    match url_parts(callback_address(target)) {
        Err(e) => Err(e),
        Ok((path, pairs)) => if path != CALLBACK_URL@ {
            Ok(None)
        } else {
            match (first_value(pairs, "code"@), first_value(pairs, "state"@)) {
                (Some(code), Some(state)) => Ok(Some(Some((code, state)))),
                _ => Ok(Some(None)),
            }
        },
    }
}

fn first_value_of(pairs: &Vec<(String, String)>, key: &str) -> (r: Option<String>)
    ensures
        match first_value(pair_views(pairs@), key@) {
            Some(v) => r matches Some(s) && s@ == v,
            None => r is None,
        },
{
    let n = pairs.len();
    let mut i: usize = 0;
    proof {
        assert(pair_views(pairs@).skip(0) =~= pair_views(pairs@));
    }
    while i < n
        invariant
            n == pairs@.len(),
            0 <= i <= n,
            first_value(pair_views(pairs@), key@) == first_value(pair_views(pairs@).skip(i as int), key@),
        decreases n - i,
    {
        let ghost rest = pair_views(pairs@).skip(i as int);
        proof {
            assert(rest.drop_first() =~= pair_views(pairs@).skip(i + 1));
        }
        if str_eq(pairs[i].0.as_str(), key) {
            return Some(pairs[i].1.clone());
        }
        i = i + 1;
    }
    None
}

impl LocalClient {
    /// The value of the first "code" pair.
    pub fn try_retrieve_code(pairs: &Vec<(String, String)>) -> (r: Option<String>)
        ensures
            match first_value(pair_views(pairs@), "code"@) {
                Some(v) => r matches Some(s) && s@ == v,
                None => r is None,
            },
    {
        first_value_of(pairs, "code")
    }

    /// The value of the first "state" pair.
    pub fn try_retrieve_state(pairs: &Vec<(String, String)>) -> (r: Option<String>)
        ensures
            match first_value(pair_views(pairs@), "state"@) {
                Some(v) => r matches Some(s) && s@ == v,
                None => r is None,
            },
    {
        first_value_of(pairs, "state")
    }

    /// What to do with a request for `target` (its path and query).
    pub fn handle_request(target: &str) -> (r: Result<CallbackDecision, ApplicationError>)
        ensures
            match callback_decision(target@) {
                Err(e) => r matches Err(ApplicationError::InvalidConfigurationOauth2(m)) && m@ == e,
                Ok(None) => r == Ok::<CallbackDecision, ApplicationError>(CallbackDecision::Skip),
                Ok(Some(None)) => r == Ok::<CallbackDecision, ApplicationError>(CallbackDecision::Respond(None)),
                Ok(Some(Some((code, state)))) => r matches Ok(CallbackDecision::Respond(Some((c, s)))) && c@ == code && s@ == state,
            },
    {
        let mut address = "http://localhost".to_owned();
        address.append(target);
        match parse_url(address.as_str()) {
            Err(e) => Err(ApplicationError::InvalidConfigurationOauth2(e)),
            Ok((path, pairs)) => {
                if !str_eq(path.as_str(), CALLBACK_URL) {
                    Ok(CallbackDecision::Skip)
                } else {
                    let code = Self::try_retrieve_code(&pairs);
                    let state = Self::try_retrieve_state(&pairs);
                    match (code, state) {
                        (Some(code), Some(state)) => Ok(CallbackDecision::Respond(Some((code, state)))),
                        _ => Ok(CallbackDecision::Respond(None)),
                    }
                }
            },
        }
    }

    /// The error when the wait for the callback ended without code and state.
    pub fn timeout_error() -> (e: ApplicationError)
        ensures
            e matches ApplicationError::UnexpectedError(m) && m@ == MISSING_CALLBACK_MESSAGE@,
    {
        ApplicationError::UnexpectedError(MISSING_CALLBACK_MESSAGE.to_owned())
    }
}

} // verus!
