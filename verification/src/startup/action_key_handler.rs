//! The keys that work in every view, and what the views must do after an
//! action.

use vstd::prelude::*;
use crate::keys::{KeyCode, KeyEvent, KeyModifiers};
use crate::state::action::{Action, ActionOutcome, AppEvent};
use crate::state::app_state::Mode;
use crate::utils::application_error::ApplicationError;

verus! {

/// The action of a key that works in every view: Ctrl+w switches mode,
/// Ctrl+r refreshes the posts, Ctrl+x quits.
pub open spec fn global_key_action(key: KeyEvent) -> Option<Action> {
    if key.modifiers == KeyModifiers::Control && key.code == KeyCode::Char('w') {
        Some(Action::SwitchMode)
    } else if key.modifiers == KeyModifiers::Control && key.code == KeyCode::Char('r') {
        Some(Action::RefreshTweets)
    } else if key.modifiers == KeyModifiers::Control && key.code == KeyCode::Char('x') {
        Some(Action::Quit)
    } else {
        None
    }
}

/// The action for `key`: the global one if there is one, else whatever
/// `default_action` (the current view's handling) returns. `default_action`
/// runs exactly when the key is not global.
pub fn handle_key_event<F>(key: &KeyEvent, default_action: F) -> (r: Result<Option<Action>, ApplicationError>)
    where
        F: FnOnce() -> Result<Option<Action>, ApplicationError>,
    requires
        global_key_action(*key) is None ==> default_action.requires(()),
    ensures
        match global_key_action(*key) {
            Some(a) => r == Ok::<Option<Action>, ApplicationError>(Some(a)),
            None => default_action.ensures((), r),
        },
{
    match (key.modifiers, key.code) {
        (KeyModifiers::Control, KeyCode::Char('w')) => Ok(Some(Action::SwitchMode)),
        (KeyModifiers::Control, KeyCode::Char('r')) => Ok(Some(Action::RefreshTweets)),
        (KeyModifiers::Control, KeyCode::Char('x')) => Ok(Some(Action::Quit)),
        _ => default_action(),
    }
}

/// What the views must do after an action.
#[derive(Debug, Clone, Copy, PartialEq, Eq, Structural)]
pub enum OutcomeEffect {
    /// Leave the client.
    Quit,
    /// Reset the read view now.
    ResetReadView,
    /// Reset the write view now.
    ResetWriteView,
    /// Deliver this event after a delay, to clear a status message.
    DelayedEvent(AppEvent),
    /// Nothing.
    Nothing,
}

/// The effect of `outcome` in `mode`: a delayed reset clears the status
/// message of the view of the current mode.
pub open spec fn outcome_effect(outcome: ActionOutcome, mode: Mode) -> OutcomeEffect {
    match outcome {
        ActionOutcome::Quit => OutcomeEffect::Quit,
        ActionOutcome::ResetReadView => OutcomeEffect::ResetReadView,
        ActionOutcome::ResetWriteView => OutcomeEffect::ResetWriteView,
        ActionOutcome::DelayedResetView => match mode {
            Mode::Read => OutcomeEffect::DelayedEvent(AppEvent::ResetReadState),
            Mode::Write => OutcomeEffect::DelayedEvent(AppEvent::ResetWriteState),
        },
        ActionOutcome::Nothing => OutcomeEffect::Nothing,
    }
}

/// What the views must do after an action that ended with `action_outcome`
/// in `mode`.
pub fn handle_action_outcome(action_outcome: ActionOutcome, mode: &Mode) -> (e: OutcomeEffect)
    ensures
        e == outcome_effect(action_outcome, *mode),
{
    match action_outcome {
        ActionOutcome::Quit => OutcomeEffect::Quit,
        ActionOutcome::ResetReadView => OutcomeEffect::ResetReadView,
        ActionOutcome::ResetWriteView => OutcomeEffect::ResetWriteView,
        ActionOutcome::DelayedResetView => match mode {
            Mode::Read => OutcomeEffect::DelayedEvent(AppEvent::ResetReadState),
            Mode::Write => OutcomeEffect::DelayedEvent(AppEvent::ResetWriteState),
        },
        ActionOutcome::Nothing => OutcomeEffect::Nothing,
    }
}

} // verus!
