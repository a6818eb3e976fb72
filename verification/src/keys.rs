//! Key presses as the client reads them: a key and the modifiers held with it.

use vstd::prelude::*;

verus! {

/// The key that was pressed. Keys the client does not tell apart are `Other`.
#[derive(Debug, Clone, Copy, PartialEq, Eq, Structural)]
pub enum KeyCode {
    Char(char),
    Tab,
    BackTab,
    Enter,
    Backspace,
    Left,
    Right,
    Up,
    Down,
    Esc,
    Other,
}

/// The exact set of modifiers held: no modifier (`Empty`), Shift alone, Control alone, or any
/// other combination.
#[derive(Debug, Clone, Copy, PartialEq, Eq, Structural)]
pub enum KeyModifiers {
    Empty,
    Shift,
    Control,
    Other,
}

/// A key press.
#[derive(Debug, Clone, Copy, PartialEq, Eq, Structural)]
pub struct KeyEvent {
    pub code: KeyCode,
    pub modifiers: KeyModifiers,
}

impl KeyEvent {
    /// The press of `code` with `modifiers`.
    #[verifier::allow_in_spec]
    pub fn new(code: KeyCode, modifiers: KeyModifiers) -> KeyEvent
        returns
            (KeyEvent { code, modifiers }),
    {
        KeyEvent { code, modifiers }
    }
}

} // verus!
