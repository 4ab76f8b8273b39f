//! The editing engine of a single-line text field.
//!
//! The text of a field lives in a [`text_input::Value`], an index-addressable
//! sequence of grapheme clusters. A [`text_input::State`] tracks the caret,
//! the focus and an in-progress paste. A [`text_input::TextInput`] interprets
//! pointer and keyboard events against both, with a
//! [`text_input::Renderer`] to measure text and a [`Clipboard`] to paste
//! from.
//!
//! Beside the field stand the events it takes, the plain geometry it is
//! laid out in, and a few other parts of the toolkit: paragraphs of text,
//! checkboxes and the settings of an application.
pub mod align;
pub mod checkbox;
pub mod clipboard;
pub mod color;
pub mod event;
pub mod font;
pub mod geometry;
pub mod input;
pub mod length;
pub mod renderer;
pub mod segmentation;
pub mod settings;
pub mod shell;
pub mod text;
pub mod text_input;
pub mod window;

pub use align::{HorizontalAlignment, VerticalAlignment};
pub use checkbox::Checkbox;
pub use clipboard::Clipboard;
pub use color::Color;
pub use event::{Event, Status, WidgetEvent};
pub use font::Font;
pub use geometry::{Layout, Point, Rectangle};
pub use length::Length;
pub use settings::Settings;
pub use text::Text;
