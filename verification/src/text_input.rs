//! Fields that can be filled with text.
pub mod field;
pub mod laws;
pub mod platform;
pub mod renderer;
pub mod search;
pub mod state;
pub mod value;
pub mod words;

pub use field::{Notification, TextInput};
pub use platform::{is_copy_paste_modifier_pressed, is_jump_modifier_pressed, Platform};
pub use renderer::Renderer;
pub use search::find_cursor_position;
pub use state::State;
pub use value::Value;
