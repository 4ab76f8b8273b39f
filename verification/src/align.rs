//! Where a text stands within its bounds.
use vstd::prelude::*;

verus! {

/// Where a text stands between the left and the right of its bounds.
#[derive(Debug, Clone, Copy, PartialEq, Eq, Hash, Structural)]
pub enum HorizontalAlignment {
    /// At the left.
    Left,
    /// In the middle.
    Center,
    /// At the right.
    Right,
}

/// Where a text stands between the top and the bottom of its bounds.
#[derive(Debug, Clone, Copy, PartialEq, Eq, Hash, Structural)]
pub enum VerticalAlignment {
    /// At the top.
    Top,
    /// In the middle.
    Center,
    /// At the bottom.
    Bottom,
}

} // verus!
