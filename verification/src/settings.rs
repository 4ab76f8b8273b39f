//! The settings of an application.
use crate::shell;
use crate::window;
use vstd::prelude::*;
use vstd::std_specs::convert::FromSpecImpl;

verus! {

/// The settings of an application.
#[derive(Debug, Clone, Copy, PartialEq, Eq, Default)]
pub struct Settings<Flags> {
    /// The window settings.
    pub window: window::Settings,
    /// What the application needs to start.
    pub flags: Flags,
    /// The bytes of the font that is used by default, or `None` for a font
    /// of the system.
    pub default_font: Option<&'static [u8]>,
    /// Whether the renderer smooths edges where it can, at a cost.
    pub antialiasing: bool,
}

impl<Flags> Settings<Flags> {
    /// Creates the settings of an application that starts from `flags`:
    /// the default window, a font of the system, no smoothing.
    pub fn with_flags(flags: Flags) -> (settings: Settings<Flags>)
        ensures
            settings.flags == flags,
            !settings.antialiasing,
            settings.default_font.is_none(),
            settings.window == (window::Settings {
                size: (1024u32, 768u32),
                resizable: true,
                decorations: true,
            }),
    {
        Settings {
            flags,
            antialiasing: false,
            default_font: None,
            window: window::Settings::default(),
        }
    }
}

impl<Flags> FromSpecImpl<Settings<Flags>> for shell::Settings<Flags> {
    open spec fn obeys_from_spec() -> bool {
        true
    }

    /// The settings that the shell takes for `settings`: the same size,
    /// whether the window can change it, its decorations and the flags; the
    /// rest as a plain window has it.
    open spec fn from_spec(settings: Settings<Flags>) -> shell::Settings<Flags> {
        shell::Settings {
            window: shell::Window {
                size: settings.window.size,
                min_size: None,
                max_size: None,
                resizable: settings.window.resizable,
                decorations: settings.window.decorations,
                transparent: false,
                always_on_top: false,
                icon: None,
                platform_specific: shell::PlatformSpecific,
            },
            flags: settings.flags,
            exit_on_close_request: false,
        }
    }
}

impl<Flags> From<Settings<Flags>> for shell::Settings<Flags> {
    /// Turns the settings of an application into those that the shell takes.
    fn from(settings: Settings<Flags>) -> (shell: shell::Settings<Flags>) {
        shell::Settings {
            window: shell::Window {
                size: settings.window.size,
                min_size: None,
                max_size: None,
                resizable: settings.window.resizable,
                decorations: settings.window.decorations,
                transparent: false,
                always_on_top: false,
                icon: None,
                platform_specific: shell::PlatformSpecific,
            },
            flags: settings.flags,
            exit_on_close_request: false,
        }
    }
}

} // verus!
