//! Points and rectangles on the grid of whole units in which a renderer
//! measures.
use vstd::prelude::*;

verus! {

/// A point of the grid.
#[derive(Debug, Clone, Copy, PartialEq, Eq, Structural)]
pub struct Point {
    /// The horizontal coordinate.
    pub x: i32,
    /// The vertical coordinate.
    pub y: i32,
}

/// A rectangle of the grid.
#[derive(Debug, Clone, Copy, PartialEq, Eq, Structural)]
pub struct Rectangle {
    /// The horizontal coordinate of the left edge.
    pub x: i32,
    /// The vertical coordinate of the top edge.
    pub y: i32,
    /// The width.
    pub width: u32,
    /// The height.
    pub height: u32,
}

impl Rectangle {
    /// Whether `point` lies within the rectangle, its four edges included.
    pub open spec fn holds(self, point: Point) -> bool {
        &&& self.x <= point.x <= self.x + self.width
        &&& self.y <= point.y <= self.y + self.height
    }

    /// Tells whether `point` lies within the rectangle, its four edges
    /// included.
    pub fn contains(&self, point: Point) -> (inside: bool)
        ensures
            inside == self.holds(point),
    {
        self.x <= point.x && point.x as i64 <= self.x as i64 + self.width as i64 && self.y
            <= point.y && point.y as i64 <= self.y as i64 + self.height as i64
    }
}

/// The bounds of a text field and, within them, of its text.
#[derive(Debug, Clone, Copy, PartialEq, Eq, Structural)]
pub struct Layout {
    /// The region that takes a pointer press for the field.
    pub bounds: Rectangle,
    /// The region in which the text is shown.
    pub text_bounds: Rectangle,
}

} // verus!
