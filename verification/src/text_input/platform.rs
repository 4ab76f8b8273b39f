//! Which modifier key does what on which platform.
use crate::input::keyboard::ModifiersState;
use vstd::prelude::*;

verus! {

/// The platforms that differ in their modifier keys.
#[derive(Debug, Clone, Copy, PartialEq, Eq, Structural)]
pub enum Platform {
    /// macOS: alt jumps over words, the logo key pastes.
    MacOs,
    /// Any other platform: control does both.
    Other,
}

/// Whether the modifier is held that makes an arrow key jump over a word.
pub open spec fn jumps(modifiers: ModifiersState, platform: Platform) -> bool {
    match platform {
        Platform::MacOs => modifiers.alt,
        Platform::Other => modifiers.control,
    }
}

/// Whether the modifier is held that makes the paste key paste.
pub open spec fn copies_or_pastes(modifiers: ModifiersState, platform: Platform) -> bool {
    match platform {
        Platform::MacOs => modifiers.logo,
        Platform::Other => modifiers.control,
    }
}

/// Tells whether the modifier is held that makes an arrow key jump over a
/// word.
pub fn is_jump_modifier_pressed(modifiers: ModifiersState, platform: Platform) -> (pressed: bool)
    ensures
        pressed == jumps(modifiers, platform),
{
    match platform {
        Platform::MacOs => modifiers.alt,
        Platform::Other => modifiers.control,
    }
}

/// Tells whether the modifier is held that makes the paste key paste.
pub fn is_copy_paste_modifier_pressed(
    modifiers: ModifiersState,
    platform: Platform,
) -> (pressed: bool)
    ensures
        pressed == copies_or_pastes(modifiers, platform),
{
    match platform {
        Platform::MacOs => modifiers.logo,
        Platform::Other => modifiers.control,
    }
}

} // verus!
