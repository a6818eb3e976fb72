//! States whose status message can be cleared.

use vstd::prelude::*;
use crate::state::app_state::AppState;
use crate::state::read_state::ReadState;
use crate::state::write_state::WriteState;

verus! {

/// A state an element draws from. Clearing its status message does nothing
/// unless the state has one.
pub trait ElementState {
    fn reset_status_message(&mut self) {
    }
}

impl ElementState for ReadState {
    fn reset_status_message(&mut self)
        ensures
            final(self)@.status_message is None,
            final(self)@.tweets == old(self)@.tweets,
    {
        self.set_status_message(None);
    }
}

impl ElementState for AppState {
}

impl ElementState for WriteState {
    fn reset_status_message(&mut self)
        ensures
            final(self)@ is None,
    {
        self.set_status_message(None);
    }
}

} // verus!
