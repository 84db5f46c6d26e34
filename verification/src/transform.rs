//! 2D transforms.
//!
//! A transform is a position, a rotation about the z axis and a per-axis
//! scale. Its model matrix is scale, then rotation, then translation,
//! composed exactly over a common denominator.
//!
//! The sine and cosine of an angle are transcendental, so they cannot be
//! computed here; a [`Rotation`] carries the angle in degrees together
//! with its sampled cosine and sine as fixed-point values, supplied by the
//! caller. The zero rotation is exact.

use vstd::prelude::*;
use crate::fixed::{Fx, Vec2Fx, fx_bounded, FX_ONE, FX_MAX_POS, FX_MAX_SCALE};
use crate::mat::{Mat4Q, lemma_mul_bound};

verus! {

/// An angle in degrees together with its sampled cosine and sine.
#[derive(Clone, Copy, Debug, PartialEq, Eq, Structural)]
pub struct Rotation {
    pub degrees: Fx,
    pub cos: Fx,
    pub sin: Fx,
}

impl Rotation {
    /// The cosine and sine stay within one in magnitude.
    pub open spec fn wf(&self) -> bool {
        &&& fx_bounded(self.cos, FX_ONE)
        &&& fx_bounded(self.sin, FX_ONE)
    }

    /// The zero rotation: cosine one, sine zero, exactly.
    pub fn zero() -> (r: Rotation)
        ensures
            r.degrees.raw == 0,
            r.cos.raw == FX_ONE,
            r.sin.raw == 0,
            r.wf(),
    {
        Rotation { degrees: Fx { raw: 0 }, cos: Fx { raw: FX_ONE }, sin: Fx { raw: 0 } }
    }

    /// A rotation from an angle and its sampled cosine and sine.
    pub fn from_parts(degrees: Fx, cos: Fx, sin: Fx) -> (r: Rotation)
        requires
            fx_bounded(cos, FX_ONE),
            fx_bounded(sin, FX_ONE),
        ensures
            r == (Rotation { degrees, cos, sin }),
            r.wf(),
    {
        Rotation { degrees, cos, sin }
    }
}

/// A placement in the plane: position, rotation and scale.
#[derive(Clone, Copy, Debug, PartialEq, Eq, Structural)]
pub struct Transform {
    position: Vec2Fx,
    scale: Vec2Fx,
    rotation: Rotation,
}

/// The model matrix numerator at flat (column-major) index `i`, over the
/// denominator `65536^3`: the matrix is scale times rotation times
/// translation.
pub open spec fn model_numerator(t: Transform, i: int) -> int {
    let sx = t.spec_scale().x.raw as int;
    let sy = t.spec_scale().y.raw as int;
    let c = t.spec_rotation().cos.raw as int;
    let s = t.spec_rotation().sin.raw as int;
    let tx = t.spec_position().x.raw as int;
    let ty = t.spec_position().y.raw as int;
    if i == 0 {
        sx * c * FX_ONE
    } else if i == 1 {
        sy * s * FX_ONE
    } else if i == 4 {
        -(sx * s * FX_ONE)
    } else if i == 5 {
        sy * c * FX_ONE
    } else if i == 10 {
        FX_ONE * FX_ONE * FX_ONE
    } else if i == 12 {
        sx * c * tx - sx * s * ty
    } else if i == 13 {
        sy * s * tx + sy * c * ty
    } else if i == 15 {
        FX_ONE * FX_ONE * FX_ONE
    } else {
        0
    }
}

/// The model matrix of a transform, as a value: every numerator is
/// [`model_numerator`] over the denominator `65536^3`.
pub open spec fn spec_model_matrix(t: Transform) -> Mat4Q {
    Mat4Q {
        n: [
            model_numerator(t, 0) as i64,
            model_numerator(t, 1) as i64,
            0i64,
            0i64,
            model_numerator(t, 4) as i64,
            model_numerator(t, 5) as i64,
            0i64,
            0i64,
            0i64,
            0i64,
            model_numerator(t, 10) as i64,
            0i64,
            model_numerator(t, 12) as i64,
            model_numerator(t, 13) as i64,
            0i64,
            model_numerator(t, 15) as i64,
        ],
        d: (FX_ONE * FX_ONE * FX_ONE) as i64,
    }
}

impl Transform {
    /// Position bounded, scale bounded, rotation well formed.
    pub open spec fn wf(&self) -> bool {
        &&& fx_bounded(self.spec_position().x, FX_MAX_POS)
        &&& fx_bounded(self.spec_position().y, FX_MAX_POS)
        &&& fx_bounded(self.spec_scale().x, FX_MAX_SCALE)
        &&& fx_bounded(self.spec_scale().y, FX_MAX_SCALE)
        &&& self.spec_rotation().wf()
    }

    /// The position, for contracts.
    pub closed spec fn spec_position(&self) -> Vec2Fx {
        self.position
    }

    /// The scale, for contracts.
    pub closed spec fn spec_scale(&self) -> Vec2Fx {
        self.scale
    }

    /// The rotation, for contracts.
    pub closed spec fn spec_rotation(&self) -> Rotation {
        self.rotation
    }

    /// The identity transform, for contracts.
    pub closed spec fn spec_identity() -> Transform {
        Transform {
            position: Vec2Fx { x: Fx { raw: 0 }, y: Fx { raw: 0 } },
            scale: Vec2Fx { x: Fx { raw: FX_ONE }, y: Fx { raw: FX_ONE } },
            rotation: Rotation { degrees: Fx { raw: 0 }, cos: Fx { raw: FX_ONE }, sin: Fx { raw: 0 } },
        }
    }

    /// The identity transform: at the origin, unrotated, scale one.
    pub fn new() -> (r: Transform)
        ensures
            r == Transform::spec_identity(),
            r.spec_position().x.raw == 0,
            r.spec_position().y.raw == 0,
            r.spec_scale().x.raw == FX_ONE,
            r.spec_scale().y.raw == FX_ONE,
            r.spec_rotation().degrees.raw == 0,
            r.spec_rotation().cos.raw == FX_ONE,
            r.spec_rotation().sin.raw == 0,
            r.wf(),
    {
        Transform {
            position: Vec2Fx::zeros(),
            scale: Vec2Fx { x: Fx { raw: FX_ONE }, y: Fx { raw: FX_ONE } },
            rotation: Rotation::zero(),
        }
    }

    /// The position.
    pub fn position(&self) -> (r: Vec2Fx)
        ensures
            r == self.spec_position(),
    {
        self.position
    }

    /// The scale.
    pub fn scale(&self) -> (r: Vec2Fx)
        ensures
            r == self.spec_scale(),
    {
        self.scale
    }

    /// The rotation angle in degrees.
    pub fn rotation(&self) -> (r: Fx)
        ensures
            r == self.spec_rotation().degrees,
    {
        self.rotation.degrees
    }

    /// Whether the transform is within the magnitude bounds the model
    /// matrix needs — a runtime check of exactly [`Transform::wf`], for
    /// callers that must test it before drawing.
    pub fn within_limits(&self) -> (r: bool)
        ensures
            r == self.wf(),
    {
        -FX_MAX_POS <= self.position.x.raw && self.position.x.raw <= FX_MAX_POS
            && -FX_MAX_POS <= self.position.y.raw && self.position.y.raw <= FX_MAX_POS
            && -FX_MAX_SCALE <= self.scale.x.raw && self.scale.x.raw <= FX_MAX_SCALE
            && -FX_MAX_SCALE <= self.scale.y.raw && self.scale.y.raw <= FX_MAX_SCALE
            && -FX_ONE <= self.rotation.cos.raw && self.rotation.cos.raw <= FX_ONE
            && -FX_ONE <= self.rotation.sin.raw && self.rotation.sin.raw <= FX_ONE
    }

    /// Moves the position by `translation` and returns the new position.
    pub fn translate(&mut self, translation: &Vec2Fx) -> (r: Vec2Fx)
        requires
            -FX_MAX_POS <= old(self).spec_position().x.raw + translation.x.raw <= FX_MAX_POS,
            -FX_MAX_POS <= old(self).spec_position().y.raw + translation.y.raw <= FX_MAX_POS,
            old(self).wf(),
        ensures
            final(self).spec_position().x.raw == old(self).spec_position().x.raw
                + translation.x.raw,
            final(self).spec_position().y.raw == old(self).spec_position().y.raw
                + translation.y.raw,
            final(self).spec_scale() == old(self).spec_scale(),
            final(self).spec_rotation() == old(self).spec_rotation(),
            final(self).wf(),
            r == final(self).spec_position(),
    {
        self.position = Vec2Fx {
            x: Fx { raw: self.position.x.raw + translation.x.raw },
            y: Fx { raw: self.position.y.raw + translation.y.raw },
        };
        self.position
    }

    /// Turns by `delta` degrees: the caller supplies the rotation for the
    /// summed angle, with its sampled cosine and sine. Returns the new
    /// angle in degrees.
    pub fn rotate(&mut self, delta: Fx, rotation: Rotation) -> (r: Fx)
        requires
            rotation.degrees.raw == old(self).spec_rotation().degrees.raw + delta.raw,
            rotation.wf(),
        ensures
            final(self).spec_rotation() == rotation,
            final(self).spec_position() == old(self).spec_position(),
            final(self).spec_scale() == old(self).spec_scale(),
            old(self).wf() ==> final(self).wf(),
            r == rotation.degrees,
    {
        self.rotation = rotation;
        self.rotation.degrees
    }

    /// Replaces the position.
    pub fn set_position(&mut self, position: Vec2Fx)
        requires
            fx_bounded(position.x, FX_MAX_POS),
            fx_bounded(position.y, FX_MAX_POS),
        ensures
            final(self).spec_position() == position,
            final(self).spec_scale() == old(self).spec_scale(),
            final(self).spec_rotation() == old(self).spec_rotation(),
            old(self).wf() ==> final(self).wf(),
    {
        self.position = position;
    }

    /// Replaces the rotation.
    pub fn set_rotation(&mut self, rotation: Rotation)
        requires
            rotation.wf(),
        ensures
            final(self).spec_rotation() == rotation,
            final(self).spec_position() == old(self).spec_position(),
            final(self).spec_scale() == old(self).spec_scale(),
            old(self).wf() ==> final(self).wf(),
    {
        self.rotation = rotation;
    }

    /// Replaces the scale.
    pub fn set_scale(&mut self, scale: Vec2Fx)
        requires
            fx_bounded(scale.x, FX_MAX_SCALE),
            fx_bounded(scale.y, FX_MAX_SCALE),
        ensures
            final(self).spec_scale() == scale,
            final(self).spec_position() == old(self).spec_position(),
            final(self).spec_rotation() == old(self).spec_rotation(),
            old(self).wf() ==> final(self).wf(),
    {
        self.scale = scale;
    }

    /// The model matrix: scale, then rotation, then translation, with
    /// every numerator given exactly by [`model_numerator`].
    pub fn matrix(&self) -> (r: Mat4Q)
        requires
            self.wf(),
        ensures
            r == spec_model_matrix(*self),
            r.d == FX_ONE * FX_ONE * FX_ONE,
            forall|i: int| 0 <= i < 16 ==> #[trigger] r.n[i] == model_numerator(*self, i),
            r.wf(),
            r.entries_bounded(),
    {
        let sx = self.scale.x.raw;
        let sy = self.scale.y.raw;
        let c = self.rotation.cos.raw;
        let s = self.rotation.sin.raw;
        let tx = self.position.x.raw;
        let ty = self.position.y.raw;
        proof {
            lemma_mul_bound(sx as int, c as int, FX_MAX_SCALE as int, FX_ONE as int);
            lemma_mul_bound(sx as int, s as int, FX_MAX_SCALE as int, FX_ONE as int);
            lemma_mul_bound(sy as int, c as int, FX_MAX_SCALE as int, FX_ONE as int);
            lemma_mul_bound(sy as int, s as int, FX_MAX_SCALE as int, FX_ONE as int);
            lemma_mul_bound(sx * c, FX_ONE as int, FX_MAX_SCALE * FX_ONE, FX_ONE as int);
            lemma_mul_bound(sx * s, FX_ONE as int, FX_MAX_SCALE * FX_ONE, FX_ONE as int);
            lemma_mul_bound(sy * c, FX_ONE as int, FX_MAX_SCALE * FX_ONE, FX_ONE as int);
            lemma_mul_bound(sy * s, FX_ONE as int, FX_MAX_SCALE * FX_ONE, FX_ONE as int);
            lemma_mul_bound(sx * c, tx as int, FX_MAX_SCALE * FX_ONE, FX_MAX_POS as int);
            lemma_mul_bound(sx * s, ty as int, FX_MAX_SCALE * FX_ONE, FX_MAX_POS as int);
            lemma_mul_bound(sy * s, tx as int, FX_MAX_SCALE * FX_ONE, FX_MAX_POS as int);
            lemma_mul_bound(sy * c, ty as int, FX_MAX_SCALE * FX_ONE, FX_MAX_POS as int);
        }
        let unit: i64 = FX_ONE * FX_ONE * FX_ONE;
        let n: [i64; 16] = [
            sx * c * FX_ONE, sy * s * FX_ONE, 0, 0,
            -(sx * s * FX_ONE), sy * c * FX_ONE, 0, 0,
            0, 0, unit, 0,
            sx * c * tx - sx * s * ty, sy * s * tx + sy * c * ty, 0, unit,
        ];
        let r = Mat4Q { n, d: unit };
        proof {
            assert(r.n@ =~= spec_model_matrix(*self).n@);
            assert(r == spec_model_matrix(*self));
        }
        r
    }
}

} // verus!
