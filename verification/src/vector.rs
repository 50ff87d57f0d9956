//! Integer pairs, and the arithmetic notions shared by every entity.

use vstd::prelude::*;

verus! {

/// Whether the integer `v` can be stored in an `i32`.
pub open spec fn fits_i32(v: int) -> bool {
    i32::MIN <= v <= i32::MAX
}

/// Half of `n`, rounded towards zero.
pub open spec fn half(n: int) -> int {
    if n >= 0 {
        n / 2
    } else {
        -((-n) / 2)
    }
}

/// The absolute value of `n`.
pub open spec fn magnitude(n: int) -> int {
    if n < 0 {
        -n
    } else {
        n
    }
}

/// A pair of unbounded integers: what a [`Vector2I`] stands for.
pub struct VectorModel {
    pub x: int,
    pub y: int,
}

impl VectorModel {
    /// Both components can be stored in an `i32`.
    pub open spec fn representable(self) -> bool {
        fits_i32(self.x) && fits_i32(self.y)
    }
}

/// A point, a size or a velocity on the integer grid.
#[derive(Clone, Copy, Debug, PartialEq, Eq, Structural)]
pub struct Vector2I {
    pub x: i32,
    pub y: i32,
}

impl View for Vector2I {
    type V = VectorModel;

    open spec fn view(&self) -> VectorModel {
        VectorModel { x: self.x as int, y: self.y as int }
    }
}

impl Vector2I {
    /// The pair `(x, y)`.
    pub fn new(x: i32, y: i32) -> (v: Vector2I)
        ensures
            v.x == x,
            v.y == y,
    {
        Vector2I { x, y }
    }
}

/// Whether the wide integer `v` can be stored in an `i32`.
pub(crate) fn fits(v: i64) -> (ok: bool)
    ensures
        ok == fits_i32(v as int),
{
    i32::MIN as i64 <= v && v <= i32::MAX as i64
}

/// The wide integer `v` as an `i32`.
pub(crate) fn narrow(v: i64) -> (r: i32)
    requires
        fits_i32(v as int),
    ensures
        r == v,
{
    v as i32
}

/// Half of `n`, rounded towards zero.
pub fn halve(n: i32) -> (r: i32)
    ensures
        r == half(n as int),
{
    n / 2
}

} // verus!
