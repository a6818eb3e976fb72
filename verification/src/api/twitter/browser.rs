//! The address at which a post is opened in the browser.

use vstd::prelude::*;
use vstd::string::{StrSliceExecFns, StringExecFns};
use crate::api::twitter::models::Tweet;
use crate::utils::application_error::ApplicationError;

verus! {

/// `s` without its leading '@' characters.
pub open spec fn without_leading_ats(s: Seq<char>) -> Seq<char>
    decreases s.len(),
{
    if s.len() > 0 && s[0] == '@' {
        without_leading_ats(s.drop_first())
    } else {
        s
    }
}

/// The address of a post on x.com: the author's handle without '@', then
/// the post's identifier.
pub open spec fn tweet_url_of(t: Tweet) -> Seq<char> {
    "https://x.com/"@ + without_leading_ats(t.handle@) + "/status/"@ + t.id@
}

proof fn lemma_without_leading_ats_skip(s: Seq<char>, i: int)
    requires
        0 <= i <= s.len(),
        forall|j: int| 0 <= j < i ==> s[j] == '@',
    ensures
        without_leading_ats(s) == without_leading_ats(s.skip(i)),
    decreases i,
{
    if i > 0 {
        assert(s.skip(1) =~= s.drop_first());
        lemma_without_leading_ats_skip(s.drop_first(), i - 1);
        assert(s.drop_first().skip(i - 1) =~= s.skip(i));
    } else {
        assert(s.skip(0) =~= s);
    }
}

/// The address of `tweet` on x.com.
pub fn tweet_url(tweet: &Tweet) -> (u: String)
    ensures
        u@ == tweet_url_of(*tweet),
{
    let handle = tweet.handle.as_str();
    let n = handle.unicode_len();
    let mut i: usize = 0;
    while i < n && handle.get_char(i) == '@'
        invariant
            n == handle@.len(),
            0 <= i <= n,
            forall|j: int| 0 <= j < i ==> handle@[j] == '@',
        decreases n - i,
    {
        i = i + 1;
    }
    let rest = handle.substring_char(i, n);
    proof {
        lemma_without_leading_ats_skip(handle@, i as int);
        assert(rest@ =~= handle@.skip(i as int));
    }
    let mut u = "https://x.com/".to_owned();
    u.append(rest);
    u.append("/status/");
    u.append(tweet.id.as_str());
    u
}

/// The error when the browser could not be opened at `url`, with the text
/// `error_text` of the cause.
pub fn open_tweet_error(url: &str, error_text: &str) -> (e: ApplicationError)
    ensures
        e matches ApplicationError::UnexpectedError(m)
            && m@ == "Could not open tweet URL "@ + url@ + ": "@ + error_text@,
{
    let mut m = "Could not open tweet URL ".to_owned();
    m.append(url);
    m.append(": ");
    m.append(error_text);
    ApplicationError::UnexpectedError(m)
}

} // verus!
