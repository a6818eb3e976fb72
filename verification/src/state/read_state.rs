//! The state that the read view shows: the fetched posts and a status message.

use vstd::prelude::*;
use crate::api::twitter::models::Tweet;
use crate::state::app_state::StatusMessage;
use crate::text::str_eq;

verus! {

/// What the read view shows: the posts in timeline order and the status
/// message, if any.
#[derive(Clone, Debug, PartialEq)]
pub struct ReadState {
    status_message: Option<StatusMessage>,
    tweets: Vec<Tweet>,
}

/// The abstract content of a [`ReadState`].
#[verifier::ext_equal]
pub struct ReadStateView {
    pub status_message: Option<StatusMessage>,
    pub tweets: Seq<Tweet>,
}

impl View for ReadState {
    type V = ReadStateView;

    closed spec fn view(&self) -> ReadStateView {
        ReadStateView { status_message: self.status_message, tweets: self.tweets@ }
    }
}

/// `i` is the position of the first post in `tweets` whose identifier is `id`.
pub open spec fn is_first_with_id(tweets: Seq<Tweet>, id: Seq<char>, i: int) -> bool {
    &&& 0 <= i < tweets.len()
    &&& tweets[i].id@ == id
    &&& forall|j: int| 0 <= j < i ==> tweets[j].id@ != id
}

/// The position of the first post in `tweets` whose identifier is `id`.
pub open spec fn first_with_id(tweets: Seq<Tweet>, id: Seq<char>) -> Option<int> {
    if exists|i: int| is_first_with_id(tweets, id, i) {
        Some(choose|i: int| is_first_with_id(tweets, id, i))
    } else {
        None
    }
}

/// There is at most one first position.
pub proof fn lemma_first_with_id_unique(tweets: Seq<Tweet>, id: Seq<char>, i: int, k: int)
    requires
        is_first_with_id(tweets, id, i),
        is_first_with_id(tweets, id, k),
    ensures
        i == k,
{
}

/// A post carries `id` exactly when there is a first post carrying it.
pub proof fn lemma_first_with_id_exists(tweets: Seq<Tweet>, id: Seq<char>, i: int)
    requires
        0 <= i < tweets.len(),
        tweets[i].id@ == id,
    ensures
        first_with_id(tweets, id) is Some,
    decreases i,
{
    if exists|j: int| 0 <= j < i && tweets[j].id@ == id {
        let j = choose|j: int| 0 <= j < i && tweets[j].id@ == id;
        lemma_first_with_id_exists(tweets, id, j);
    } else {
        assert(is_first_with_id(tweets, id, i));
    }
}

impl ReadState {
    /// A state showing `tweets` and no status message.
    pub fn new(tweets: Vec<Tweet>) -> (s: Self)
        ensures
            s@.tweets == tweets@,
            s@.status_message is None,
    {
        ReadState { status_message: None, tweets }
    }

    /// The posts, in timeline order.
    pub fn tweets(&self) -> (t: &[Tweet])
        ensures
            t@ == self@.tweets,
    {
        self.tweets.as_slice()
    }

    /// How many posts there are.
    pub fn tweet_count(&self) -> (n: usize)
        ensures
            n == self@.tweets.len(),
    {
        self.tweets.len()
    }

    /// The post at `index`, if there is one.
    pub fn tweet(&self, index: usize) -> (t: Option<&Tweet>)
        ensures
            t == (if index < self@.tweets.len() {
                Some(&self@.tweets[index as int])
            } else {
                None
            }),
    {
        if index < self.tweets.len() {
            Some(&self.tweets[index])
        } else {
            None
        }
    }

    /// The position of the first post whose identifier is `tweet_id`.
    pub fn tweet_index_by_id(&self, tweet_id: &str) -> (r: Option<usize>)
        ensures
            r == match first_with_id(self@.tweets, tweet_id@) {
                Some(i) => Some(i as usize),
                None => None,
            },
    {
        let n = self.tweets.len();
        let mut i: usize = 0;
        while i < n
            invariant
                n == self@.tweets.len(),
                0 <= i <= n,
                forall|j: int| 0 <= j < i ==> self@.tweets[j].id@ != tweet_id@,
            decreases n - i,
        {
            if str_eq(self.tweets[i].id.as_str(), tweet_id) {
                proof {
                    assert(is_first_with_id(self@.tweets, tweet_id@, i as int));
                    let k = choose|k: int| is_first_with_id(self@.tweets, tweet_id@, k);
                    lemma_first_with_id_unique(self@.tweets, tweet_id@, i as int, k);
                }
                return Some(i);
            }
            i = i + 1;
        }
        proof {
            if exists|k: int| is_first_with_id(self@.tweets, tweet_id@, k) {
                let k = choose|k: int| is_first_with_id(self@.tweets, tweet_id@, k);
                assert(self@.tweets[k].id@ != tweet_id@);
            }
        }
        None
    }

    /// Replaces the post at `index`.
    pub fn replace_tweet(&mut self, index: usize, tweet: Tweet)
        requires
            index < old(self)@.tweets.len(),
        ensures
            final(self)@.tweets == old(self)@.tweets.update(index as int, tweet),
            final(self)@.status_message == old(self)@.status_message,
    {
        self.tweets.set(index, tweet);
    }

    /// The status message shown, if any.
    pub fn status_message(&self) -> (m: Option<&StatusMessage>)
        ensures
            m == match self@.status_message {
                Some(s) => Some(&s),
                None => None,
            },
    {
        self.status_message.as_ref()
    }

    /// Replaces the status message.
    pub fn set_status_message(&mut self, message: Option<StatusMessage>)
        ensures
            final(self)@.status_message == message,
            final(self)@.tweets == old(self)@.tweets,
    {
        self.status_message = message;
    }
}

} // verus!
