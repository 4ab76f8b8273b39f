//! What a text field asks of the renderer that shows it.
use crate::font::Font;
use crate::geometry::Rectangle;
use crate::text_input::state::{State, StateView};
use crate::text_input::value::Value;
use vstd::prelude::*;

verus! {

/// The renderer of a text field.
///
/// A renderer measures in whole units of its own choosing. The trait asks
/// nothing of what it answers: what a field does with a renderer is stated
/// for every answer, and exactly for a renderer whose answers are known
/// (see [`renders`]).
pub trait Renderer {
    /// Returns the size of the text of a field that sets none.
    fn default_size(&self) -> u16;

    /// Returns the width of `value` at `size` in `font`.
    fn measure_value(&self, value: &str, size: u16, font: Font) -> u32;

    /// Returns how far the text of `value` is scrolled to the left where it
    /// does not fit the field.
    fn offset(
        &self,
        text_bounds: Rectangle,
        size: u16,
        value: &Value,
        state: &State,
        font: Font,
    ) -> u32;
}

/// What a renderer answers, as functions of what it is asked.
pub struct Answers {
    /// The size of the text of a field that sets none.
    pub text_size: u16,
    /// The width of a text at a size in a font.
    pub width: spec_fn(Seq<char>, u16, Font) -> u32,
    /// How far the text of the given clusters is scrolled to the left.
    pub offset: spec_fn(Rectangle, u16, Seq<Seq<char>>, StateView, Font) -> u32,
}

/// Whether `renderer` measures every text as `width` tells.
pub open spec fn measures<R: Renderer>(
    renderer: &R,
    width: spec_fn(Seq<char>, u16, Font) -> u32,
) -> bool {
    forall|value: &str, size: u16, font: Font, measured: u32|
        #[trigger] call_ensures(R::measure_value, (renderer, value, size, font), measured)
            ==> measured == width(value@, size, font)
}

/// Whether `renderer` answers every question as `answers` tells.
pub open spec fn renders<R: Renderer>(renderer: &R, answers: Answers) -> bool {
    &&& forall|size: u16| #[trigger]
        call_ensures(R::default_size, (renderer,), size) ==> size == answers.text_size
    &&& measures(renderer, answers.width)
    &&& forall|
        text_bounds: Rectangle,
        size: u16,
        value: &Value,
        state: &State,
        font: Font,
        offset: u32,
    | #[trigger]
        call_ensures(R::offset, (renderer, text_bounds, size, value, state, font), offset)
            ==> offset == (answers.offset)(text_bounds, size, value@, state@, font)
}

} // verus!
