//! What the keyboard and the pointer report.
pub mod keyboard;
pub mod mouse;

use vstd::prelude::*;

verus! {

/// Whether a key or a button went down or up.
#[derive(Debug, Clone, Copy, PartialEq, Eq, Structural)]
pub enum ButtonState {
    /// It went down.
    Pressed,
    /// It went up.
    Released,
}

} // verus!
