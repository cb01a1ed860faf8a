//! Lengths and points in half cells, with arithmetic that stops at the ends
//! of the `i64` range instead of wrapping round.

use vstd::prelude::*;

verus! {

/// The value that `v` takes when it is stored in an `i64`: `v` itself inside
/// the range, the nearer end of the range outside it.
pub open spec fn saturate(v: int) -> int {
    if v < i64::MIN {
        i64::MIN as int
    } else if v > i64::MAX {
        i64::MAX as int
    } else {
        v
    }
}

/// Stores a wide intermediate result in an `i64`.
pub fn clamp(v: i128) -> (r: i64)
    ensures
        r == saturate(v as int),
{
    if v < i64::MIN as i128 {
        i64::MIN
    } else if v > i64::MAX as i128 {
        i64::MAX
    } else {
        v as i64
    }
}

/// A point or a displacement on the stage, both components in half cells.
#[derive(Clone, Copy, Debug, PartialEq, Eq, Structural)]
pub struct Vector2 {
    pub x: i64,
    pub y: i64,
}

impl Vector2 {
    /// The point reached from `self` by the displacement `d`, each component
    /// saturating on its own.
    pub open spec fn moved_by(self, d: Vector2) -> Vector2 {
        Vector2 { x: saturate(self.x + d.x) as i64, y: saturate(self.y + d.y) as i64 }
    }

    /// The origin.
    pub fn zero() -> (v: Vector2)
        ensures
            v == (Vector2 { x: 0, y: 0 }),
    {
        Vector2 { x: 0, y: 0 }
    }

    /// One integration step: `self + d`.
    pub fn advance(self, d: Vector2) -> (v: Vector2)
        ensures
            v == self.moved_by(d),
    {
        Vector2 { x: clamp(self.x as i128 + d.x as i128), y: clamp(self.y as i128 + d.y as i128) }
    }
}

} // verus!
