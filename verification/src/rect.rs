//! Points and sizes on the integer pixel grid.

use vstd::prelude::*;

verus! {

/// A point on the integer pixel grid.
#[derive(Debug, Clone, Copy, PartialEq, Eq, Hash, Structural)]
pub struct Point {
    pub x: i32,
    pub y: i32,
}

impl Point {
    /// The point with the given coordinates.
    pub fn new(x: i32, y: i32) -> (p: Point)
        ensures
            p == (Point { x, y }),
    {
        Point { x, y }
    }
}

/// A width and a height in whole pixels.
#[derive(Debug, Clone, Copy, PartialEq, Eq, Hash, Structural)]
pub struct Size {
    pub width: i32,
    pub height: i32,
}

impl Size {
    /// The size with the given width and height.
    pub fn new(width: i32, height: i32) -> (s: Size)
        ensures
            s == (Size { width, height }),
    {
        Size { width, height }
    }

    /// This size with each side raised to 1 where it is smaller.
    pub open spec fn at_least_one_spec(self) -> Size {
        Size {
            width: if self.width < 1 { 1 } else { self.width },
            height: if self.height < 1 { 1 } else { self.height },
        }
    }

    /// This size with each side raised to 1 where it is smaller: a
    /// drawable surface cannot have an empty side.
    pub fn at_least_one(self) -> (s: Size)
        ensures
            s == self.at_least_one_spec(),
            s.width >= 1,
            s.height >= 1,
    {
        Size {
            width: if self.width < 1 { 1 } else { self.width },
            height: if self.height < 1 { 1 } else { self.height },
        }
    }
}

} // verus!
