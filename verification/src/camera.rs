//! The camera: an orthographic view of the scene.
//!
//! The projection is built exactly: every matrix entry is a rational with
//! a shared positive denominator, so the law that the half-extent corners
//! land on clip-space one is provable, not approximate.

use vstd::prelude::*;
use crate::data::{ClippingPlanes, Color, Viewport};
use crate::fixed::{Fx, FX_ONE, FX_MAX_SCALE, FX_MAX_DEPTH};
use crate::mat::{Mat4Q, Vec4Fx, lemma_mul_bound, row_dot};
use crate::transform::Transform;

verus! {

/// The denominator shared by all entries of the orthographic projection
/// for half-extent `size`, aspect ratio `aspect` and clip planes
/// `planes`.
pub open spec fn ortho_denominator(size: Fx, aspect: Fx, planes: ClippingPlanes) -> int {
    size.raw * aspect.raw * (planes.far.raw - planes.near.raw)
}

/// The orthographic projection numerator at flat (column-major) index
/// `i`: the projection scales x by `1 / (size * aspect)`, y by
/// `1 / size`, and maps depths from `[near, far]` to `[0, 1]` reversed.
pub open spec fn ortho_numerator(size: Fx, aspect: Fx, planes: ClippingPlanes, i: int) -> int {
    let s = size.raw as int;
    let a = aspect.raw as int;
    let depth = planes.far.raw - planes.near.raw;
    if i == 0 {
        FX_ONE * FX_ONE * depth
    } else if i == 5 {
        a * depth * FX_ONE
    } else if i == 10 {
        -(s * a * FX_ONE)
    } else if i == 14 {
        -(s * a * planes.near.raw)
    } else if i == 15 {
        s * a * depth
    } else {
        0
    }
}

/// The orthographic projection matrix, as a value: every numerator is
/// [`ortho_numerator`] over [`ortho_denominator`].
pub open spec fn spec_ortho_matrix(size: Fx, aspect: Fx, planes: ClippingPlanes) -> Mat4Q {
    Mat4Q {
        n: [
            ortho_numerator(size, aspect, planes, 0) as i64,
            0i64,
            0i64,
            0i64,
            0i64,
            ortho_numerator(size, aspect, planes, 5) as i64,
            0i64,
            0i64,
            0i64,
            0i64,
            ortho_numerator(size, aspect, planes, 10) as i64,
            0i64,
            0i64,
            0i64,
            ortho_numerator(size, aspect, planes, 14) as i64,
            ortho_numerator(size, aspect, planes, 15) as i64,
        ],
        d: ortho_denominator(size, aspect, planes) as i64,
    }
}

/// The scene's single camera: a transform for the view, an orthographic
/// half-extent, clip planes, a viewport rectangle and a clear color.
#[derive(Clone, Copy, Debug, PartialEq, Eq, Structural)]
pub struct Camera {
    transform: Transform,
    clear: Color,
    size: Fx,
    clipping_planes: ClippingPlanes,
    viewport: Viewport,
}

impl Camera {
    /// The view transform, for contracts.
    pub closed spec fn spec_transform(&self) -> Transform {
        self.transform
    }

    /// The clear color, for contracts.
    pub closed spec fn spec_clear(&self) -> Color {
        self.clear
    }

    /// The orthographic half-extent, for contracts.
    pub closed spec fn spec_size(&self) -> Fx {
        self.size
    }

    /// The clip planes, for contracts.
    pub closed spec fn spec_clipping_planes(&self) -> ClippingPlanes {
        self.clipping_planes
    }

    /// The viewport rectangle, for contracts.
    pub closed spec fn spec_viewport(&self) -> Viewport {
        self.viewport
    }

    /// The half-extent is positive and bounded, and the clip planes are
    /// ordered and bounded.
    pub open spec fn wf(&self) -> bool {
        &&& 0 < self.spec_size().raw <= FX_MAX_SCALE
        &&& self.spec_clipping_planes().wf()
    }

    /// The initial camera, for contracts.
    pub closed spec fn spec_initial() -> Camera {
        Camera {
            size: Fx { raw: (3 * FX_ONE) as i64 },
            clear: Color::spec_black(),
            transform: Transform::spec_identity(),
            clipping_planes: ClippingPlanes {
                near: Fx { raw: (-FX_ONE) as i64 },
                far: Fx { raw: FX_ONE },
            },
            viewport: Viewport::spec_unit(),
        }
    }

    /// A camera at the origin: half-extent three, black clear color,
    /// default clip planes and unit viewport.
    pub fn new() -> (r: Camera)
        ensures
            r == Camera::spec_initial(),
            r.spec_size().raw == 3 * FX_ONE,
            r.spec_clear() == Color::spec_black(),
            r.spec_transform() == Transform::spec_identity(),
            r.spec_clipping_planes().near.raw == -FX_ONE,
            r.spec_clipping_planes().far.raw == FX_ONE,
            r.spec_viewport() == Viewport::spec_unit(),
            r.wf(),
    {
        Camera {
            size: Fx { raw: 3 * FX_ONE },
            clear: Color::black(),
            transform: Transform::new(),
            clipping_planes: ClippingPlanes::default(),
            viewport: Viewport::default(),
        }
    }

    /// The view transform.
    pub fn transform(&self) -> (r: &Transform)
        ensures
            *r == self.spec_transform(),
    {
        &self.transform
    }

    /// Mutable access to the view transform.
    pub fn transform_mut(&mut self) -> (r: &mut Transform)
        ensures
            *r == old(self).spec_transform(),
            final(self).spec_transform() == *final(r),
            final(self).spec_clear() == old(self).spec_clear(),
            final(self).spec_size() == old(self).spec_size(),
            final(self).spec_clipping_planes() == old(self).spec_clipping_planes(),
            final(self).spec_viewport() == old(self).spec_viewport(),
    {
        &mut self.transform
    }

    /// The orthographic half-extent.
    pub fn size(&self) -> (r: Fx)
        ensures
            r == self.spec_size(),
    {
        self.size
    }

    /// The clip planes.
    pub fn clipping_planes(&self) -> (r: &ClippingPlanes)
        ensures
            *r == self.spec_clipping_planes(),
    {
        &self.clipping_planes
    }

    /// The viewport rectangle.
    pub fn viewport(&self) -> (r: &Viewport)
        ensures
            *r == self.spec_viewport(),
    {
        &self.viewport
    }

    /// The clear color.
    pub fn clear(&self) -> (r: &Color)
        ensures
            *r == self.spec_clear(),
    {
        &self.clear
    }

    /// Replaces the half-extent.
    pub fn set_size(&mut self, size: Fx)
        requires
            0 < size.raw <= FX_MAX_SCALE,
        ensures
            final(self).spec_size() == size,
            final(self).spec_transform() == old(self).spec_transform(),
            final(self).spec_clear() == old(self).spec_clear(),
            final(self).spec_clipping_planes() == old(self).spec_clipping_planes(),
            final(self).spec_viewport() == old(self).spec_viewport(),
            old(self).wf() ==> final(self).wf(),
    {
        self.size = size;
    }

    /// Replaces the clip planes.
    pub fn set_clipping_planes(&mut self, clipping_planes: ClippingPlanes)
        requires
            clipping_planes.wf(),
        ensures
            final(self).spec_clipping_planes() == clipping_planes,
            final(self).spec_transform() == old(self).spec_transform(),
            final(self).spec_clear() == old(self).spec_clear(),
            final(self).spec_size() == old(self).spec_size(),
            final(self).spec_viewport() == old(self).spec_viewport(),
            old(self).wf() ==> final(self).wf(),
    {
        self.clipping_planes = clipping_planes;
    }

    /// Replaces the viewport rectangle.
    pub fn set_viewport(&mut self, viewport: Viewport)
        ensures
            final(self).spec_viewport() == viewport,
            final(self).spec_transform() == old(self).spec_transform(),
            final(self).spec_clear() == old(self).spec_clear(),
            final(self).spec_size() == old(self).spec_size(),
            final(self).spec_clipping_planes() == old(self).spec_clipping_planes(),
            old(self).wf() ==> final(self).wf(),
    {
        self.viewport = viewport;
    }

    /// Replaces the clear color.
    pub fn set_clear(&mut self, clear: Color)
        ensures
            final(self).spec_clear() == clear,
            final(self).spec_transform() == old(self).spec_transform(),
            final(self).spec_size() == old(self).spec_size(),
            final(self).spec_clipping_planes() == old(self).spec_clipping_planes(),
            final(self).spec_viewport() == old(self).spec_viewport(),
            old(self).wf() ==> final(self).wf(),
    {
        self.clear = clear;
    }

    /// Whether the camera's half-extent and clip planes are within the
    /// bounds the projection needs — a runtime check of exactly
    /// [`Camera::wf`], for callers that must test it before drawing.
    pub fn within_limits(&self) -> (r: bool)
        ensures
            r == self.wf(),
    {
        0 < self.size.raw && self.size.raw <= FX_MAX_SCALE
            && self.clipping_planes.near.raw < self.clipping_planes.far.raw
            && -FX_MAX_DEPTH <= self.clipping_planes.near.raw
            && self.clipping_planes.near.raw <= FX_MAX_DEPTH
            && -FX_MAX_DEPTH <= self.clipping_planes.far.raw
            && self.clipping_planes.far.raw <= FX_MAX_DEPTH
    }

    /// The orthographic projection for this camera and the given aspect
    /// ratio, with every entry pinned by [`ortho_numerator`] over
    /// [`ortho_denominator`].
    pub fn ortho(&self, aspect: Fx) -> (r: Mat4Q)
        requires
            self.wf(),
            0 < aspect.raw <= FX_MAX_SCALE,
        ensures
            r == spec_ortho_matrix(self.spec_size(), aspect, self.spec_clipping_planes()),
            r.d == ortho_denominator(self.spec_size(), aspect, self.spec_clipping_planes()),
            forall|i: int| 0 <= i < 16 ==> #[trigger] r.n[i] == ortho_numerator(
                self.spec_size(),
                aspect,
                self.spec_clipping_planes(),
                i,
            ),
            r.wf(),
            r.entries_bounded(),
    {
        let s = self.size.raw;
        let a = aspect.raw;
        let near = self.clipping_planes.near.raw;
        let far = self.clipping_planes.far.raw;
        let depth = far - near;
        proof {
            lemma_mul_bound(FX_ONE * FX_ONE, depth as int, FX_ONE * FX_ONE, 2 * FX_MAX_SCALE);
            lemma_mul_bound(a as int, depth as int, FX_MAX_SCALE as int, 2 * FX_MAX_SCALE);
            lemma_mul_bound(a * depth, FX_ONE as int, 2 * FX_MAX_SCALE * FX_MAX_SCALE, FX_ONE as int);
            lemma_mul_bound(s as int, a as int, FX_MAX_SCALE as int, FX_MAX_SCALE as int);
            lemma_mul_bound(s * a, FX_ONE as int, FX_MAX_SCALE * FX_MAX_SCALE, FX_ONE as int);
            lemma_mul_bound(s * a, near as int, FX_MAX_SCALE * FX_MAX_SCALE, FX_MAX_SCALE as int);
            lemma_mul_bound(s * a, depth as int, FX_MAX_SCALE * FX_MAX_SCALE, 2 * FX_MAX_SCALE);
        }
        let d: i64 = s * a * depth;
        let n: [i64; 16] = [
            FX_ONE * FX_ONE * depth, 0, 0, 0,
            0, a * depth * FX_ONE, 0, 0,
            0, 0, -(s * a * FX_ONE), 0,
            0, 0, -(s * a * near), d,
        ];
        proof {
            assert((s as int) * (a as int) * (depth as int) > 0) by (nonlinear_arith)
                requires
                    s > 0,
                    a > 0,
                    depth > 0,
            ;
        }
        let r = Mat4Q { n, d };
        proof {
            assert(r.n@ =~= spec_ortho_matrix(self.spec_size(), aspect, self.spec_clipping_planes()).n@);
            assert(r == spec_ortho_matrix(self.spec_size(), aspect, self.spec_clipping_planes()));
        }
        r
    }
}

/// Law: under the orthographic projection for half-extent `size` and
/// aspect ratio `aspect`, the world points at plus or minus the visible
/// half extents — `size * aspect` in x (where that corner is exactly
/// representable, which the first corner premise states), `size` in
/// y — map exactly to plus or minus one in clip-space x and y, and the
/// eye-space depths at the near and far planes map to zero and one (the
/// zero-to-one, right-handed depth convention: the camera looks down
/// negative z). The projected coordinates are the row dot products over
/// the denominator `m.d * 65536`; the homogeneous coordinate is exactly
/// one.
pub proof fn lemma_ortho_maps_corners(
    m: Mat4Q,
    size: Fx,
    aspect: Fx,
    planes: ClippingPlanes,
    corner: Vec4Fx,
)
    requires
        0 < size.raw <= FX_MAX_SCALE,
        0 < aspect.raw <= FX_MAX_SCALE,
        planes.wf(),
        m.d == ortho_denominator(size, aspect, planes),
        forall|i: int| 0 <= i < 16 ==> #[trigger] m.n[i] == ortho_numerator(size, aspect, planes, i),
        corner.x.raw * FX_ONE == size.raw * aspect.raw || corner.x.raw * FX_ONE == -(size.raw
            * aspect.raw),
        corner.y.raw == size.raw || corner.y.raw == -size.raw,
        corner.w.raw == FX_ONE,
    ensures
        row_dot(m, corner, 0) == if corner.x.raw * FX_ONE == size.raw * aspect.raw {
            m.d * FX_ONE
        } else {
            -(m.d * FX_ONE)
        },
        row_dot(m, corner, 1) == if corner.y.raw == size.raw {
            m.d * FX_ONE
        } else {
            -(m.d * FX_ONE)
        },
        corner.z.raw == -planes.near.raw ==> row_dot(m, corner, 2) == 0,
        corner.z.raw == -planes.far.raw ==> row_dot(m, corner, 2) == m.d * FX_ONE,
        row_dot(m, corner, 3) == m.d * FX_ONE,
{
    let s = size.raw as int;
    let a = aspect.raw as int;
    let x = corner.x.raw as int;
    let nr = planes.near.raw as int;
    let depth = planes.far.raw - planes.near.raw;
    assert(m.n[0] == FX_ONE * FX_ONE * depth);
    assert(m.n[4] == 0 && m.n[8] == 0 && m.n[12] == 0);
    assert(m.n[1] == 0 && m.n[9] == 0 && m.n[13] == 0);
    assert(m.n[5] == a * depth * FX_ONE);
    assert(m.n[2] == 0 && m.n[6] == 0);
    assert(m.n[10] == -(s * a * FX_ONE) && m.n[14] == -(s * a * nr));
    assert(m.n[3] == 0 && m.n[7] == 0 && m.n[11] == 0 && m.n[15] == s * a * depth);
    assert(m.d == s * a * depth);
    // x row: the numerator is (65536^2 * depth) * x; with the corner
    // premise x * 65536 == +-(s * a), it collapses to +-(d * 65536).
    assert(row_dot(m, corner, 0) == (FX_ONE * FX_ONE * depth) * x);
    if x * FX_ONE == s * a {
        assert((FX_ONE * FX_ONE * depth) * x == (s * a * depth) * FX_ONE) by (nonlinear_arith)
            requires
                x * FX_ONE == s * a,
        ;
    } else {
        assert((FX_ONE * FX_ONE * depth) * x == -((s * a * depth) * FX_ONE)) by (nonlinear_arith)
            requires
                x * FX_ONE == -(s * a),
        ;
    }
    // y row: the numerator is (a * depth * 65536) * y at y == +-s.
    assert(row_dot(m, corner, 1) == (a * depth * FX_ONE) * corner.y.raw);
    assert((a * depth * FX_ONE) * s == (s * a * depth) * FX_ONE) by (nonlinear_arith);
    assert((a * depth * FX_ONE) * (-s) == -((s * a * depth) * FX_ONE)) by (nonlinear_arith);
    // depth row: -(s * a * 65536) * z - (s * a * near) * 65536 is zero
    // at z == -near and d * 65536 at z == -far.
    assert(row_dot(m, corner, 2) == (-(s * a * FX_ONE)) * corner.z.raw + (-(s * a * nr)) * FX_ONE);
    if corner.z.raw == -planes.near.raw {
        assert((-(s * a * FX_ONE)) * (-nr) + (-(s * a * nr)) * FX_ONE == 0) by (nonlinear_arith);
    }
    if corner.z.raw == -planes.far.raw {
        let fr = planes.far.raw as int;
        assert((-(s * a * FX_ONE)) * (-fr) + (-(s * a * nr)) * FX_ONE == (s * a * (fr - nr))
            * FX_ONE) by (nonlinear_arith);
        assert(s * a * (fr - nr) == s * a * depth) by (nonlinear_arith)
            requires
                depth == fr - nr,
        ;
    }
    // homogeneous row: the only entry is the denominator itself.
    assert(row_dot(m, corner, 3) == (s * a * depth) * FX_ONE);
}

} // verus!
