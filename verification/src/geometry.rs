//! 2D positions in Q16.16 fixed point.

use vstd::prelude::*;

verus! {

/// One whole unit (one pixel) in Q16.16 fixed point.
pub const FP_ONE: i64 = 65536;

/// Largest coordinate magnitude the library accepts from the host.
///
/// Keeping baselines and animation parameters within this bound is what lets
/// every animator evaluate with plain `i64` arithmetic and no overflow.
pub const POS_LIMIT: i64 = 0x100_0000_0000;

/// A 2D position or displacement, both coordinates Q16.16 fixed point.
#[derive(Clone, Copy, Debug, PartialEq, Eq, Structural)]
pub struct Vec2 {
    pub x: i64,
    pub y: i64,
}

/// Both coordinates of `v` are within `POS_LIMIT`.
pub open spec fn in_bounds(v: Vec2) -> bool {
    -POS_LIMIT <= v.x <= POS_LIMIT && -POS_LIMIT <= v.y <= POS_LIMIT
}

/// Componentwise sum, truncated into `i64` (exact whenever both summands are
/// within `POS_LIMIT`).
pub open spec fn spec_vec2_add(a: Vec2, b: Vec2) -> Vec2 {
    Vec2 { x: (a.x + b.x) as i64, y: (a.y + b.y) as i64 }
}

impl Vec2 {
    /// The origin.
    pub fn zero() -> (r: Vec2)
        ensures
            r == (Vec2 { x: 0, y: 0 }),
    {
        Vec2 { x: 0, y: 0 }
    }

    /// Componentwise sum of two in-bounds vectors.
    pub fn translated(self, offset: Vec2) -> (r: Vec2)
        requires
            in_bounds(self),
            in_bounds(offset),
        ensures
            r == spec_vec2_add(self, offset),
            r.x == self.x + offset.x,
            r.y == self.y + offset.y,
    {
        Vec2 { x: self.x + offset.x, y: self.y + offset.y }
    }
}

} // verus!
