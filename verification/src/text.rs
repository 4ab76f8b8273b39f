//! Paragraphs of text.
use crate::align::{HorizontalAlignment, VerticalAlignment};
use crate::color::Color;
use crate::font::Font;
use crate::length::Length;
use vstd::prelude::*;
use vstd::std_specs::convert::IntoSpec;

verus! {

/// What a [`Text`] holds.
pub struct TextView {
    /// The text itself.
    pub content: Seq<char>,
    /// The size of the text, where one is set.
    pub size: Option<u16>,
    /// The color of the text, where one is set.
    pub color: Option<Color>,
    /// The font of the text.
    pub font: Font,
    /// The width of the bounds.
    pub width: Length,
    /// The height of the bounds.
    pub height: Length,
    /// Where the text stands between left and right.
    pub horizontal_alignment: HorizontalAlignment,
    /// Where the text stands between top and bottom.
    pub vertical_alignment: VerticalAlignment,
}

/// A paragraph of text.
#[derive(Debug, Clone)]
pub struct Text {
    content: String,
    size: Option<u16>,
    color: Option<Color>,
    font: Font,
    width: Length,
    height: Length,
    horizontal_alignment: HorizontalAlignment,
    vertical_alignment: VerticalAlignment,
}

impl View for Text {
    type V = TextView;

    closed spec fn view(&self) -> TextView {
        TextView {
            content: self.content@,
            size: self.size,
            color: self.color,
            font: self.font,
            width: self.width,
            height: self.height,
            horizontal_alignment: self.horizontal_alignment,
            vertical_alignment: self.vertical_alignment,
        }
    }
}

impl Text {
    /// Creates a text with the given `label`: in the default font, of no
    /// set size or color, shrunk to its content, at the top left.
    pub fn new<T: Into<String>>(label: T) -> (text: Text)
        ensures
            T::obeys_into_spec() ==> text@.content == label.into_spec()@,
            text@ == (TextView {
                content: text@.content,
                size: None,
                color: None,
                font: Font::Default,
                width: Length::Shrink,
                height: Length::Shrink,
                horizontal_alignment: HorizontalAlignment::Left,
                vertical_alignment: VerticalAlignment::Top,
            }),
    {
        Text {
            content: label.into(),
            size: None,
            color: None,
            font: Font::Default,
            width: Length::Shrink,
            height: Length::Shrink,
            horizontal_alignment: HorizontalAlignment::Left,
            vertical_alignment: VerticalAlignment::Top,
        }
    }

    /// Sets the size of the text.
    pub fn size(self, size: u16) -> (text: Text)
        ensures
            text@ == (TextView { size: Some(size), ..self@ }),
    {
        let mut text = self;
        text.size = Some(size);
        text
    }

    /// Sets the color of the text.
    pub fn color<C: Into<Color>>(self, color: C) -> (text: Text)
        ensures
            text@ == (TextView { color: text@.color, ..self@ }),
            text@.color.is_some(),
            C::obeys_into_spec() ==> text@.color == Some(color.into_spec()),
    {
        let mut text = self;
        text.color = Some(color.into());
        text
    }

    /// Sets the font of the text.
    pub fn font(self, font: Font) -> (text: Text)
        ensures
            text@ == (TextView { font, ..self@ }),
    {
        let mut text = self;
        text.font = font;
        text
    }

    /// Sets the width of the bounds of the text.
    pub fn width(self, width: Length) -> (text: Text)
        ensures
            text@ == (TextView { width, ..self@ }),
    {
        let mut text = self;
        text.width = width;
        text
    }

    /// Sets the height of the bounds of the text.
    pub fn height(self, height: Length) -> (text: Text)
        ensures
            text@ == (TextView { height, ..self@ }),
    {
        let mut text = self;
        text.height = height;
        text
    }

    /// Sets where the text stands between left and right.
    pub fn horizontal_alignment(self, alignment: HorizontalAlignment) -> (text: Text)
        ensures
            text@ == (TextView { horizontal_alignment: alignment, ..self@ }),
    {
        let mut text = self;
        text.horizontal_alignment = alignment;
        text
    }

    /// Sets where the text stands between top and bottom.
    pub fn vertical_alignment(self, alignment: VerticalAlignment) -> (text: Text)
        ensures
            text@ == (TextView { vertical_alignment: alignment, ..self@ }),
    {
        let mut text = self;
        text.vertical_alignment = alignment;
        text
    }
}

} // verus!
