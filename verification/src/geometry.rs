//! Integer points of the play field.

use vstd::prelude::*;

verus! {

/// A point of the play field, in whole pixels.
#[derive(Clone, Copy, Debug, PartialEq, Eq, Structural)]
pub struct Point {
    pub x: i32,
    pub y: i32,
}

impl Point {
    pub fn new(x: i32, y: i32) -> (p: Point)
        ensures
            p.x == x,
            p.y == y,
    {
        Point { x, y }
    }

    /// Squared Euclidean distance between two points.
    pub open spec fn dist2(self, other: Point) -> int {
        (self.x - other.x) * (self.x - other.x) + (self.y - other.y) * (self.y - other.y)
    }

    /// Whether `other` lies within `radius` of `self`, the border included.
    pub open spec fn within(self, other: Point, radius: int) -> bool {
        self.dist2(other) <= radius * radius
    }

    /// Decides `within`.
    pub fn is_within(&self, other: Point, radius: i32) -> (b: bool)
        ensures
            b == self.within(other, radius as int),
    {
        let dx: i128 = self.x as i128 - other.x as i128;
        let dy: i128 = self.y as i128 - other.y as i128;
        let r: i128 = radius as i128;
        assert(0 <= dx * dx <= 0x1_0000_0000 * 0x1_0000_0000 && 0 <= dy * dy <= 0x1_0000_0000
            * 0x1_0000_0000 && 0 <= r * r <= 0x1_0000_0000 * 0x1_0000_0000) by (nonlinear_arith)
            requires
                -0x1_0000_0000 <= dx <= 0x1_0000_0000,
                -0x1_0000_0000 <= dy <= 0x1_0000_0000,
                -0x1_0000_0000 <= r <= 0x1_0000_0000,
        ;
        dx * dx + dy * dy <= r * r
    }
}

} // verus!
