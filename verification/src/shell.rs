//! The settings that the windowing shell takes.
use vstd::prelude::*;

verus! {

/// The pixels of a window icon.
#[derive(Debug, Clone)]
pub struct Icon {
    /// The pixels, row by row, four bytes each: red, green, blue, opacity.
    pub rgba: Vec<u8>,
    /// The number of pixels in a row.
    pub width: u32,
    /// The number of rows.
    pub height: u32,
}

/// The settings that only some platforms have. This platform has none.
#[derive(Debug, Clone, Copy, PartialEq, Eq, Default, Structural)]
pub struct PlatformSpecific;

/// The window settings of an application.
#[derive(Debug)]
pub struct Window {
    /// The size of the window.
    pub size: (u32, u32),
    /// The least size of the window.
    pub min_size: Option<(u32, u32)>,
    /// The greatest size of the window.
    pub max_size: Option<(u32, u32)>,
    /// Whether the window can change its size.
    pub resizable: bool,
    /// Whether the window has a border, a title bar and the like.
    pub decorations: bool,
    /// Whether the window lets through what lies behind it.
    pub transparent: bool,
    /// Whether the window stays on top of the others.
    pub always_on_top: bool,
    /// The icon of the window.
    pub icon: Option<Icon>,
    /// The settings that only some platforms have.
    pub platform_specific: PlatformSpecific,
}

impl Default for Window {
    /// A plain window of 1024 by 768 that can change its size and has
    /// decorations.
    fn default() -> (window: Window)
        ensures
            window.size == (1024u32, 768u32),
            window.min_size.is_none(),
            window.max_size.is_none(),
            window.resizable,
            window.decorations,
            !window.transparent,
            !window.always_on_top,
            window.icon.is_none(),
    {
        Window {
            size: (1024, 768),
            min_size: None,
            max_size: None,
            resizable: true,
            decorations: true,
            transparent: false,
            always_on_top: false,
            icon: None,
            platform_specific: PlatformSpecific,
        }
    }
}

/// The settings of an application, as the shell takes them.
#[derive(Debug, Default)]
pub struct Settings<Flags> {
    /// The window settings.
    pub window: Window,
    /// What the application needs to start.
    pub flags: Flags,
    /// Whether the application ends when the user asks the window to close.
    pub exit_on_close_request: bool,
}

} // verus!
