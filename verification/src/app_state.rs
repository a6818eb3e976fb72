//! The modes of a client that answers posts: the write mode carries the post
//! being replied to.

use vstd::prelude::*;
use crate::api::twitter::models::Tweet;
use crate::text::str_eq;

verus! {

/// The post a reply answers, and the handle it is addressed to.
#[derive(Debug, Clone)]
pub struct ReplyTarget {
    pub tweet: Tweet,
    pub handle: String,
}

impl PartialEq for ReplyTarget {
    /// Two reply targets are the same when they have the same handle and the
    /// same post identifier.
    fn eq(&self, other: &Self) -> (r: bool) {
        str_eq(self.handle.as_str(), other.handle.as_str()) && str_eq(self.tweet.id.as_str(), other.tweet.id.as_str())
    }
}

impl vstd::std_specs::cmp::PartialEqSpecImpl for ReplyTarget {
    open spec fn obeys_eq_spec() -> bool {
        true
    }

    open spec fn eq_spec(&self, other: &Self) -> bool {
        self.handle@ == other.handle@ && self.tweet.id@ == other.tweet.id@
    }
}

/// Whether the client reads, or writes a reply to a target.
#[derive(Debug, Clone)]
pub enum Mode {
    Read,
    Write { reply_target: ReplyTarget },
}

/// What a view may ask of the client.
#[derive(Debug, Clone, Copy, PartialEq, Eq, Structural)]
pub enum ViewAction {
    SwitchToRead,
}

} // verus!
