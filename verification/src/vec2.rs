//! Two-dimensional fixed-point vectors.

use vstd::prelude::*;

verus! {

/// A 2D vector whose components are fixed-point scalars (micro-units).
#[derive(Clone, Copy, PartialEq, Eq, Structural, Debug)]
pub struct Vec2 {
    pub x: i64,
    pub y: i64,
}

impl Vec2 {
    pub fn new(x: i64, y: i64) -> (r: Vec2)
        ensures
            r.x == x,
            r.y == y,
    {
        Vec2 { x, y }
    }

    pub fn zero() -> (r: Vec2)
        ensures
            r.x == 0,
            r.y == 0,
    {
        Vec2 { x: 0, y: 0 }
    }

    pub open spec fn is_zero_spec(self) -> bool {
        self.x == 0 && self.y == 0
    }

    /// Whether the vector is exactly the zero vector (equivalently, whether
    /// its squared length is zero).
    pub fn is_zero(&self) -> (r: bool)
        ensures
            r == self.is_zero_spec(),
    {
        self.x == 0 && self.y == 0
    }

    /// Both components within `limit` in magnitude.
    pub open spec fn in_range(self, limit: int) -> bool {
        -limit <= self.x <= limit && -limit <= self.y <= limit
    }
}

} // verus!
