use vstd::prelude::*;

verus! {

/// A two-dimensional vector in whole-pixel units. Screen space has its origin
/// at the top-left corner, with `y` increasing downward.
#[derive(Clone, Copy, PartialEq, Eq, Structural, Debug)]
pub struct Vector2 {
    pub x: i64,
    pub y: i64,
}

/// The value `v` clamped into the closed interval `[lo, hi]`.
pub open spec fn clamped(v: int, lo: int, hi: int) -> int {
    if v < lo {
        lo
    } else if v > hi {
        hi
    } else {
        v
    }
}

impl Vector2 {
    pub fn new(x: i64, y: i64) -> (v: Vector2)
        ensures
            v.x == x,
            v.y == y,
    {
        Vector2 { x, y }
    }

    /// Clamp both components into `[min, max]`.
    pub fn clamp(&mut self, min: i64, max: i64)
        requires
            min <= max,
        ensures
            final(self).x == clamped(old(self).x as int, min as int, max as int),
            final(self).y == clamped(old(self).y as int, min as int, max as int),
    {
        if self.x < min {
            self.x = min;
        } else if self.x > max {
            self.x = max;
        }
        if self.y < min {
            self.y = min;
        } else if self.y > max {
            self.y = max;
        }
    }
}

} // verus!
