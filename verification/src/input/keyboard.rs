//! Keyboard events.
use crate::input::ButtonState;
use vstd::prelude::*;

verus! {

/// The keys that a text field tells apart.
#[derive(Debug, Clone, Copy, PartialEq, Eq, Structural)]
pub enum KeyCode {
    /// The key that submits.
    Enter,
    /// The key that deletes to the left.
    Backspace,
    /// The key that deletes to the right.
    Delete,
    /// The left arrow.
    Left,
    /// The right arrow.
    Right,
    /// The key that goes to the start.
    Home,
    /// The key that goes to the end.
    End,
    /// The letter that pastes when its modifier is held.
    V,
    /// Any other key.
    Other,
}

/// The modifier keys that are held.
#[derive(Debug, Clone, Copy, PartialEq, Eq, Structural)]
pub struct ModifiersState {
    /// Whether a shift key is held.
    pub shift: bool,
    /// Whether a control key is held.
    pub control: bool,
    /// Whether an alt key is held.
    pub alt: bool,
    /// Whether a logo key is held.
    pub logo: bool,
}

/// A keyboard event.
#[derive(Debug, Clone, Copy, PartialEq, Eq, Structural)]
pub enum Event {
    /// A key went down or up.
    Input {
        /// Which way the key went.
        state: ButtonState,
        /// The key.
        key_code: KeyCode,
        /// The modifiers held meanwhile.
        modifiers: ModifiersState,
    },
    /// The keyboard produced a character.
    CharacterReceived(char),
}

} // verus!
