//! The source of what a paste inserts.
use vstd::prelude::*;

verus! {

/// A buffer for short-term storage and transfer within and between
/// applications.
pub trait Clipboard {
    /// Returns the text that the clipboard holds now, or `None` where it
    /// holds none or cannot be read.
    fn content(&self) -> Option<String>;
}

} // verus!
