use vstd::prelude::*;

verus! {

/// A point in screen or local coordinates, in whole pixels.
#[derive(Clone, Copy, Debug, PartialEq, Eq, Structural)]
pub struct Point {
    pub x: i64,
    pub y: i64,
}

impl Point {
    pub fn new(x: i64, y: i64) -> (r: Point)
        ensures
            r.x == x,
            r.y == y,
    {
        Point { x, y }
    }

    pub fn zero() -> (r: Point)
        ensures
            r.x == 0,
            r.y == 0,
    {
        Point { x: 0, y: 0 }
    }
}

/// A width and a height, in whole pixels.
#[derive(Clone, Copy, Debug, PartialEq, Eq, Structural)]
pub struct Size {
    pub width: u32,
    pub height: u32,
}

impl Size {
    pub fn new(width: u32, height: u32) -> (r: Size)
        ensures
            r.width == width,
            r.height == height,
    {
        Size { width, height }
    }
}

/// An axis-aligned rectangle: its top-left corner and its size.
#[derive(Clone, Copy, Debug, PartialEq, Eq, Structural)]
pub struct Rect {
    pub origin: Point,
    pub size: Size,
}

impl Rect {
    /// Whether `(x, y)` lies in the rectangle, edges included.
    pub open spec fn spec_contains(self, x: int, y: int) -> bool {
        &&& self.origin.x <= x <= self.origin.x + self.size.width
        &&& self.origin.y <= y <= self.origin.y + self.size.height
    }

    pub fn new(origin: Point, size: Size) -> (r: Rect)
        ensures
            r.origin == origin,
            r.size == size,
    {
        Rect { origin, size }
    }

    pub fn contains(&self, x: i64, y: i64) -> (r: bool)
        ensures
            r == self.spec_contains(x as int, y as int),
    {
        let right: i128 = self.origin.x as i128 + self.size.width as i128;
        let bottom: i128 = self.origin.y as i128 + self.size.height as i128;
        self.origin.x <= x && (x as i128) <= right && self.origin.y <= y && (y as i128) <= bottom
    }
}

} // verus!
