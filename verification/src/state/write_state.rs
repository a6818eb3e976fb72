//! The state that the write view shows.

use vstd::prelude::*;
use crate::state::app_state::StatusMessage;

verus! {

/// What the write view shows: the status message, if any.
#[derive(Clone, Debug, PartialEq)]
pub struct WriteState {
    status_message: Option<StatusMessage>,
}

impl View for WriteState {
    type V = Option<StatusMessage>;

    closed spec fn view(&self) -> Option<StatusMessage> {
        self.status_message
    }
}

impl Default for WriteState {
    fn default() -> (w: Self)
        ensures
            w@ == None::<StatusMessage>,
    {
        WriteState { status_message: None }
    }
}

impl WriteState {
    /// The status message shown, if any.
    pub fn status_message(&self) -> (m: Option<&StatusMessage>)
        ensures
            m == match self@ {
                Some(s) => Some(&s),
                None => None,
            },
    {
        self.status_message.as_ref()
    }

    /// Replaces the status message.
    pub fn set_status_message(&mut self, message: Option<StatusMessage>)
        ensures
            final(self)@ == message,
    {
        self.status_message = message;
    }
}

} // verus!
