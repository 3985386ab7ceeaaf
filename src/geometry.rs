//! Points, sizes and rectangles in pixels and in cells.

use vstd::prelude::*;

verus! {

/// A pixel position; may lie off the surface.
#[derive(Clone, Copy, PartialEq, Eq, Structural, Debug)]
pub struct Point {
    pub x: i32,
    pub y: i32,
}

/// A cell position in the grid: column `x`, row `y`.
#[derive(Clone, Copy, PartialEq, Eq, Structural, Debug)]
pub struct Position {
    pub x: u16,
    pub y: u16,
}

/// A size, in pixels or in cells.
#[derive(Clone, Copy, PartialEq, Eq, Structural, Debug)]
pub struct Size {
    pub width: u16,
    pub height: u16,
}

/// A solid rectangle of pixels.
#[derive(Clone, Copy, PartialEq, Eq, Structural, Debug)]
pub struct Rect {
    pub top_left: Point,
    pub width: u32,
    pub height: u32,
}

/// Whether the pixel `(x, y)` lies inside the rectangle.
pub open spec fn rect_contains(r: Rect, x: int, y: int) -> bool {
    r.top_left.x <= x < r.top_left.x + r.width && r.top_left.y <= y < r.top_left.y + r.height
}

impl Point {
    pub fn new(x: i32, y: i32) -> (p: Point)
        ensures
            p == (Point { x, y }),
    {
        Point { x, y }
    }
}

impl Position {
    pub fn new(x: u16, y: u16) -> (p: Position)
        ensures
            p == (Position { x, y }),
    {
        Position { x, y }
    }
}

} // verus!
