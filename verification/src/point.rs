//! Integer 2D grid coordinates.

use vstd::prelude::*;

verus! {

/// A grid-cell coordinate: an immutable integer 2D point.
#[derive(Clone, Copy, PartialEq, Eq, Structural, Debug)]
pub struct Point {
    pub x: i32,
    pub y: i32,
}

impl Point {
    /// Builds the point (x, y).
    pub fn new(x: i32, y: i32) -> (p: Point)
        ensures
            p.x == x,
            p.y == y,
    {
        Point { x, y }
    }

    /// Component-wise vector addition.
    pub fn add(self, rhs: Point) -> (p: Point)
        requires
            i32::MIN <= self.x + rhs.x <= i32::MAX,
            i32::MIN <= self.y + rhs.y <= i32::MAX,
        ensures
            p.x == self.x + rhs.x,
            p.y == self.y + rhs.y,
    {
        Point::new(self.x + rhs.x, self.y + rhs.y)
    }

    /// Component-wise vector subtraction.
    pub fn sub(self, rhs: Point) -> (p: Point)
        requires
            i32::MIN <= self.x - rhs.x <= i32::MAX,
            i32::MIN <= self.y - rhs.y <= i32::MAX,
        ensures
            p.x == self.x - rhs.x,
            p.y == self.y - rhs.y,
    {
        Point::new(self.x - rhs.x, self.y - rhs.y)
    }
}

} // verus!
