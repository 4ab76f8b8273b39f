//! Windows: their events and their settings.
use vstd::prelude::*;

verus! {

/// A window event.
#[derive(Debug, Clone, Copy, PartialEq, Eq, Structural)]
pub enum Event {
    /// The window changed its size.
    Resized {
        /// The new width.
        width: u32,
        /// The new height.
        height: u32,
    },
}

/// The window settings of an application.
#[derive(Debug, Clone, Copy, PartialEq, Eq)]
pub struct Settings {
    /// The size of the window.
    pub size: (u32, u32),
    /// Whether the window can change its size.
    pub resizable: bool,
    /// Whether the window has a border, a title bar and the like.
    pub decorations: bool,
}

impl Default for Settings {
    /// A window of 1024 by 768 that can change its size and has decorations.
    fn default() -> (settings: Settings)
        ensures
            settings == (Settings { size: (1024u32, 768u32), resizable: true, decorations: true }),
    {
        Settings { size: (1024, 768), resizable: true, decorations: true }
    }
}

} // verus!
