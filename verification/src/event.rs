//! The events of a user interface.
use crate::input::{keyboard, mouse};
use crate::window;
use vstd::prelude::*;

verus! {

/// A user interface event.
#[derive(Debug, Clone, Copy, PartialEq, Eq, Structural)]
pub enum Event {
    /// A keyboard event.
    Keyboard(keyboard::Event),
    /// A pointer event.
    Mouse(mouse::Event),
    /// A window event.
    Window(window::Event),
}

/// An event that a widget of the platform raised.
#[derive(Debug, Clone, Copy, PartialEq, Eq, Structural)]
pub struct WidgetEvent {
    /// The number of the widget that raised the event.
    pub widget_id: u64,
    /// The platform's handle of the view that the widget is shown in.
    pub id: usize,
}

/// What became of an [`Event`] once a widget has seen it.
#[derive(Debug, Clone, Copy, PartialEq, Eq, Structural)]
pub enum Status {
    /// No widget handled the event.
    Ignored,
    /// A widget handled the event.
    Captured,
}

impl Status {
    /// Merges two statuses into one: `Captured` wins over `Ignored`.
    pub fn merge(self, b: Status) -> (merged: Status)
        ensures
            merged == if self == Status::Captured || b == Status::Captured {
                Status::Captured
            } else {
                Status::Ignored
            },
    {
        match self {
            Status::Ignored => b,
            Status::Captured => Status::Captured,
        }
    }
}

} // verus!
