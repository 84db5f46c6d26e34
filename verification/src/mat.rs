//! Exact 4x4 matrices.
//!
//! A matrix is stored as sixteen integer numerators over one positive
//! denominator, in column-major order: entry `(row, col)` has the value
//! `n[col * 4 + row] / d`. Building projection and model matrices this way
//! keeps every entry exact — no rounding happens until a backend converts
//! the matrix to floating point for the GPU.

use vstd::prelude::*;
use crate::fixed::{Fx, FX_ONE};

verus! {

/// Bound on matrix numerators and vector components accepted by
/// [`Mat4Q::apply`]: keeps all intermediate products inside `i128`.
pub const MAT_LIMIT: i64 = 0x4000_0000_0000_0000;

/// A 4x4 matrix of rationals sharing one positive denominator,
/// column-major: entry `(row, col)` is `n[col * 4 + row] / d`.
#[derive(Clone, Copy, Debug, PartialEq, Eq)]
pub struct Mat4Q {
    pub n: [i64; 16],
    pub d: i64,
}

/// A point (or direction) with fixed-point components, used as the right
/// operand of a matrix application.
#[derive(Clone, Copy, Debug, PartialEq, Eq, Structural)]
pub struct Vec4Fx {
    pub x: Fx,
    pub y: Fx,
    pub z: Fx,
    pub w: Fx,
}

/// The exact result of applying a matrix to a point: four rational
/// coordinates over one positive denominator.
#[derive(Clone, Copy, Debug, PartialEq, Eq, Structural)]
pub struct Vec4Q {
    pub nx: i128,
    pub ny: i128,
    pub nz: i128,
    pub nw: i128,
    pub d: i128,
}

impl Mat4Q {
    /// A well-formed matrix has a positive denominator.
    pub open spec fn wf(&self) -> bool {
        self.d > 0
    }

    /// All numerators within the magnitude accepted by [`Mat4Q::apply`].
    pub open spec fn entries_bounded(&self) -> bool {
        forall|i: int| 0 <= i < 16 ==> -MAT_LIMIT <= #[trigger] self.n[i] <= MAT_LIMIT
    }

    /// The identity matrix.
    pub fn identity() -> (r: Mat4Q)
        ensures
            r.d == 1,
            forall|i: int| 0 <= i < 16 ==> #[trigger] r.n[i] == spec_identity_entry(i),
    {
        let n: [i64; 16] = [
            1, 0, 0, 0,
            0, 1, 0, 0,
            0, 0, 1, 0,
            0, 0, 0, 1,
        ];
        Mat4Q { n, d: 1 }
    }

    /// Applies the matrix to a point, exactly: each output coordinate is
    /// the dot product of a matrix row with the point's raw components,
    /// over the denominator `d * 65536`.
    pub fn apply(&self, v: &Vec4Fx) -> (r: Vec4Q)
        requires
            self.wf(),
            self.entries_bounded(),
            vec4_bounded(*v),
        ensures
            r.d == self.d * FX_ONE,
            r.nx == row_dot(*self, *v, 0),
            r.ny == row_dot(*self, *v, 1),
            r.nz == row_dot(*self, *v, 2),
            r.nw == row_dot(*self, *v, 3),
    {
        let nx = dot_row(self, v, 0);
        let ny = dot_row(self, v, 1);
        let nz = dot_row(self, v, 2);
        let nw = dot_row(self, v, 3);
        let d: i128 = (self.d as i128) * (FX_ONE as i128);
        Vec4Q { nx, ny, nz, nw, d }
    }
}

/// The identity matrix's numerator at flat index `i` (denominator one).
pub open spec fn spec_identity_entry(i: int) -> i64 {
    if i == 0 || i == 5 || i == 10 || i == 15 {
        1
    } else {
        0
    }
}

/// All components of the point within the magnitude accepted by
/// [`Mat4Q::apply`].
pub open spec fn vec4_bounded(v: Vec4Fx) -> bool {
    &&& -MAT_LIMIT <= v.x.raw <= MAT_LIMIT
    &&& -MAT_LIMIT <= v.y.raw <= MAT_LIMIT
    &&& -MAT_LIMIT <= v.z.raw <= MAT_LIMIT
    &&& -MAT_LIMIT <= v.w.raw <= MAT_LIMIT
}

/// The dot product of matrix row `row` with the point's raw components.
pub open spec fn row_dot(m: Mat4Q, v: Vec4Fx, row: int) -> int {
    m.n[row] * v.x.raw + m.n[4 + row] * v.y.raw + m.n[8 + row] * v.z.raw + m.n[12 + row] * v.w.raw
}

/// A product of two bounded factors is bounded by the product of the
/// bounds.
pub proof fn lemma_mul_bound(x: int, y: int, a: int, b: int)
    requires
        -a <= x <= a,
        -b <= y <= b,
        0 <= a,
        0 <= b,
    ensures
        -(a * b) <= x * y <= a * b,
{
    assert(-(a * b) <= x * y <= a * b) by (nonlinear_arith)
        requires
            -a <= x <= a,
            -b <= y <= b,
            0 <= a,
            0 <= b,
    ;
}

/// One row of the matrix application, computed in `i128`.
fn dot_row(m: &Mat4Q, v: &Vec4Fx, row: usize) -> (r: i128)
    requires
        row < 4,
        m.entries_bounded(),
        vec4_bounded(*v),
    ensures
        r == row_dot(*m, *v, row as int),
{
    proof {
        lemma_mul_bound(m.n[row as int] as int, v.x.raw as int, MAT_LIMIT as int, MAT_LIMIT as int);
        lemma_mul_bound(m.n[4 + row as int] as int, v.y.raw as int, MAT_LIMIT as int, MAT_LIMIT as int);
        lemma_mul_bound(m.n[8 + row as int] as int, v.z.raw as int, MAT_LIMIT as int, MAT_LIMIT as int);
        lemma_mul_bound(m.n[12 + row as int] as int, v.w.raw as int, MAT_LIMIT as int, MAT_LIMIT as int);
    }
    let a: i128 = (m.n[row] as i128) * (v.x.raw as i128);
    let b: i128 = (m.n[4 + row] as i128) * (v.y.raw as i128);
    let c: i128 = (m.n[8 + row] as i128) * (v.z.raw as i128);
    let e: i128 = (m.n[12 + row] as i128) * (v.w.raw as i128);
    a + b + c + e
}

} // verus!
