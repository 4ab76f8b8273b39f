//! Colors.
use vstd::prelude::*;

verus! {

/// A color in the sRGB color space, each channel in 256 steps.
#[derive(Debug, Clone, Copy, PartialEq, Eq, Structural)]
pub struct Color {
    /// The red channel.
    pub r: u8,
    /// The green channel.
    pub g: u8,
    /// The blue channel.
    pub b: u8,
    /// The opacity.
    pub a: u8,
}

} // verus!
