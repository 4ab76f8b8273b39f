//! The fonts of a text.
use vstd::prelude::*;

verus! {

/// A font.
#[derive(Debug, Clone, Copy, PartialEq, Eq)]
pub enum Font {
    /// The font that the renderer uses where none is asked for.
    Default,
    /// A font that the application brings.
    External {
        /// The name of the font.
        name: &'static str,
        /// The bytes of the font file.
        bytes: &'static [u8],
    },
}

} // verus!
