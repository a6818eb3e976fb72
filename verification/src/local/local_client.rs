//! A listener for the OAuth callback that gathers the code and the state over
//! several requests.

use vstd::prelude::*;
use crate::api::local::client::{CALLBACK_URL, pair_views};
use crate::text::str_eq;

verus! {

/// The query parameters the listener keeps.
pub open spec fn is_callback_param(key: Seq<char>) -> bool {
    key == "state"@ || key == "code"@
}

/// The value of the last pair named `key`, or `current` when there is none.
pub open spec fn last_value_or(pairs: Seq<(Seq<char>, Seq<char>)>, key: Seq<char>, current: Option<Seq<char>>) -> Option<Seq<char>>
    decreases pairs.len(),
{
    if pairs.len() == 0 {
        current
    } else {
        last_value_or(
            pairs.drop_first(),
            key,
            if pairs[0].0 == key { Some(pairs[0].1) } else { current },
        )
    }
}

/// An optional string as characters.
pub open spec fn opt_view(s: Option<String>) -> Option<Seq<char>> {
    match s {
        Some(v) => Some(v@),
        None => None,
    }
}

/// The listener that gathers the callback's code and state.
pub struct LocalClient;

impl LocalClient {
    /// Whether a request path is the callback.
    pub fn is_callback_path(path: &str) -> (b: bool)
        ensures
            b == (path@ == CALLBACK_URL@),
    {
        str_eq(path, CALLBACK_URL)
    }

    /// Takes the "state" and "code" pairs of one callback request: each one
    /// found replaces what was gathered so far, the last one winning. Returns
    /// whether both are now known.
    pub fn absorb_callback_params(pairs: &Vec<(String, String)>, code: &mut Option<String>, state: &mut Option<String>) -> (done: bool)
        ensures
            opt_view(*final(code)) == last_value_or(pair_views(pairs@), "code"@, opt_view(*old(code))),
            opt_view(*final(state)) == last_value_or(pair_views(pairs@), "state"@, opt_view(*old(state))),
            done == (final(code).is_some() && final(state).is_some()),
    {
        let n = pairs.len();
        let mut i: usize = 0;
        proof {
            assert(pair_views(pairs@).skip(0) =~= pair_views(pairs@));
        }
        while i < n
            invariant
                n == pairs@.len(),
                0 <= i <= n,
                last_value_or(pair_views(pairs@), "code"@, opt_view(*old(code)))
                    == last_value_or(pair_views(pairs@).skip(i as int), "code"@, opt_view(*code)),
                last_value_or(pair_views(pairs@), "state"@, opt_view(*old(state)))
                    == last_value_or(pair_views(pairs@).skip(i as int), "state"@, opt_view(*state)),
            decreases n - i,
        {
            let ghost rest = pair_views(pairs@).skip(i as int);
            proof {
                assert(rest.drop_first() =~= pair_views(pairs@).skip(i + 1));
                reveal_strlit("state");
                reveal_strlit("code");
                assert("state"@ != "code"@) by {
                    assert("state"@[0] != "code"@[0]);
                }
            }
            let (key, value) = &pairs[i];
            if str_eq(key.as_str(), "state") {
                *state = Some(value.clone());
            } else if str_eq(key.as_str(), "code") {
                *code = Some(value.clone());
            }
            i = i + 1;
        }
        code.is_some() && state.is_some()
    }
}

} // verus!
