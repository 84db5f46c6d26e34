//! Fixed-point scalars.
//!
//! All geometry in this crate is carried as 16.16 fixed-point numbers: a
//! scalar is an `i64` raw value standing for `raw / 65536`. The arithmetic
//! on these values is exact integer arithmetic, so every matrix entry and
//! every projected coordinate has a contract that pins it to a formula.

use vstd::prelude::*;

verus! {

/// Raw value of the scalar one: the fixed-point scale factor.
pub const FX_ONE: i64 = 65536;

/// Raw value of the scalar one half.
pub const FX_HALF: i64 = 32768;

/// Largest raw magnitude accepted for positions and translations
/// (world coordinates up to 256 units either way).
pub const FX_MAX_POS: i64 = 0x100_0000;

/// Largest raw magnitude accepted for scale factors, camera half-extents
/// and aspect ratios (up to 16).
pub const FX_MAX_SCALE: i64 = 0x10_0000;

/// Largest raw magnitude accepted for clip-plane depths (up to 16).
pub const FX_MAX_DEPTH: i64 = 0x10_0000;

/// A 16.16 fixed-point scalar: the value `raw / 65536`.
#[derive(Clone, Copy, Debug, PartialEq, Eq, Structural)]
pub struct Fx {
    pub raw: i64,
}

impl Fx {
    /// The scalar with the given raw (already scaled) value.
    pub fn from_raw(raw: i64) -> (r: Fx)
        ensures
            r.raw == raw,
    {
        Fx { raw }
    }

    /// The scalar standing for the given whole number.
    pub fn from_int(v: i32) -> (r: Fx)
        ensures
            r.raw == v * FX_ONE,
    {
        Fx { raw: (v as i64) * FX_ONE }
    }

    /// The scalar zero.
    pub fn zero() -> (r: Fx)
        ensures
            r.raw == 0,
    {
        Fx { raw: 0 }
    }

    /// The scalar one.
    pub fn one() -> (r: Fx)
        ensures
            r.raw == FX_ONE,
    {
        Fx { raw: FX_ONE }
    }

    /// The raw (scaled) value.
    pub fn raw(&self) -> (r: i64)
        ensures
            r == self.raw,
    {
        self.raw
    }
}

/// A magnitude bound on a scalar: `|x| <= bound` on the raw value.
pub open spec fn fx_bounded(x: Fx, bound: i64) -> bool {
    -bound <= x.raw <= bound
}

/// A two-component fixed-point vector (a point or extent in the plane).
#[derive(Clone, Copy, Debug, PartialEq, Eq, Structural)]
pub struct Vec2Fx {
    pub x: Fx,
    pub y: Fx,
}

impl Vec2Fx {
    /// The vector with the given components.
    pub fn new(x: Fx, y: Fx) -> (r: Vec2Fx)
        ensures
            r.x == x,
            r.y == y,
    {
        Vec2Fx { x, y }
    }

    /// The zero vector.
    pub fn zeros() -> (r: Vec2Fx)
        ensures
            r.x.raw == 0,
            r.y.raw == 0,
    {
        Vec2Fx { x: Fx { raw: 0 }, y: Fx { raw: 0 } }
    }
}

} // verus!
