//! Renderers.
pub mod null;

pub use null::Null;
