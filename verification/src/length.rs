//! How a widget fills the space of one dimension.
use vstd::prelude::*;

verus! {

/// The strategy by which a widget fills the space of one dimension.
#[derive(Debug, Clone, Copy, PartialEq, Eq, Hash, Structural)]
pub enum Length {
    /// Fill all the space that is left.
    Fill,
    /// Fill a portion of the space that is left.
    FillPortion(u16),
    /// Fill as little space as can be.
    Shrink,
    /// Fill a fixed number of units.
    Units(u16),
}

} // verus!
