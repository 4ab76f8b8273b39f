//! Pointer events.
use crate::input::ButtonState;
use vstd::prelude::*;

verus! {

/// A button of the pointer.
#[derive(Debug, Clone, Copy, PartialEq, Eq, Structural)]
pub enum Button {
    /// The left button.
    Left,
    /// The right button.
    Right,
    /// The middle button.
    Middle,
    /// Another button, by its number.
    Other(u8),
}

/// A pointer event.
#[derive(Debug, Clone, Copy, PartialEq, Eq, Structural)]
pub enum Event {
    /// The pointer came into the window.
    CursorEntered,
    /// The pointer left the window.
    CursorLeft,
    /// The pointer moved.
    CursorMoved {
        /// The horizontal coordinate it moved to.
        x: i32,
        /// The vertical coordinate it moved to.
        y: i32,
    },
    /// A button went down or up.
    Input {
        /// Which way the button went.
        state: ButtonState,
        /// The button.
        button: Button,
    },
}

} // verus!
