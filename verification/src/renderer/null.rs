//! A renderer that shows nothing.
use crate::font::Font;
use crate::geometry::Rectangle;
use crate::text_input;
use crate::text_input::renderer::{renders, Answers};
use crate::text_input::state::{State, StateView};
use crate::text_input::value::Value;
use vstd::prelude::*;

verus! {

/// A renderer that does nothing: every text is 0 wide to it.
#[derive(Debug, Clone, Copy)]
pub struct Null;

impl Null {
    /// Creates a `Null` renderer.
    pub fn new() -> (renderer: Null)
        ensures
            renders(&renderer, Null::answers()),
    {
        Null
    }

    /// What a `Null` renderer answers: a text size of 20, and 0 to
    /// everything else.
    pub open spec fn answers() -> Answers {
        Answers {
            text_size: 20,
            width: |text: Seq<char>, size: u16, font: Font| 0u32,
            offset: |
                text_bounds: Rectangle,
                size: u16,
                clusters: Seq<Seq<char>>,
                state: StateView,
                font: Font,
            |
                0u32,
        }
    }

    /// A `Null` renderer answers as [`Null::answers`] tells.
    pub proof fn lemma_answers(renderer: &Null)
        ensures
            renders(renderer, Null::answers()),
    {
    }
}

impl text_input::Renderer for Null {
    fn default_size(&self) -> (size: u16)
        ensures
            size == 20,
    {
        20
    }

    fn measure_value(&self, _value: &str, _size: u16, _font: Font) -> (width: u32)
        ensures
            width == 0,
    {
        0
    }

    fn offset(
        &self,
        _text_bounds: Rectangle,
        _size: u16,
        _value: &Value,
        _state: &State,
        _font: Font,
    ) -> (offset: u32)
        ensures
            offset == 0,
    {
        0
    }
}

} // verus!
