//! Plain render data: colors, viewports, clip planes, vertices, and the
//! per-frame and per-draw records handed to the GPU backend.

use vstd::prelude::*;
use crate::fixed::{Fx, fx_bounded, FX_ONE, FX_MAX_DEPTH};
use crate::mat::{Mat4Q, spec_identity_entry};

verus! {

/// An RGB color with fixed-point channels in `[0, 1]`.
#[derive(Clone, Copy, Debug, PartialEq, Eq, Structural)]
pub struct Color {
    red: Fx,
    green: Fx,
    blue: Fx,
}

impl Color {
    /// The channels, for contracts: red, green, blue.
    pub closed spec fn spec_rgb(&self) -> (Fx, Fx, Fx) {
        (self.red, self.green, self.blue)
    }

    /// White, for contracts.
    pub closed spec fn spec_white() -> Color {
        Color { red: Fx { raw: FX_ONE }, green: Fx { raw: FX_ONE }, blue: Fx { raw: FX_ONE } }
    }

    /// White: every channel one.
    pub fn new() -> (r: Color)
        ensures
            r.spec_rgb() == (Fx { raw: FX_ONE }, Fx { raw: FX_ONE }, Fx { raw: FX_ONE }),
            r == Color::spec_white(),
    {
        Color { red: Fx { raw: FX_ONE }, green: Fx { raw: FX_ONE }, blue: Fx { raw: FX_ONE } }
    }

    /// Black, for contracts.
    pub closed spec fn spec_black() -> Color {
        Color { red: Fx { raw: 0 }, green: Fx { raw: 0 }, blue: Fx { raw: 0 } }
    }

    /// Black: every channel zero.
    pub fn black() -> (r: Color)
        ensures
            r.spec_rgb() == (Fx { raw: 0 }, Fx { raw: 0 }, Fx { raw: 0 }),
            r == Color::spec_black(),
    {
        Color { red: Fx { raw: 0 }, green: Fx { raw: 0 }, blue: Fx { raw: 0 } }
    }

    /// Replaces the red channel.
    pub fn set_red(&mut self, value: Fx)
        ensures
            final(self).spec_rgb() == (value, old(self).spec_rgb().1, old(self).spec_rgb().2),
    {
        self.red = value;
    }

    /// Replaces the green channel.
    pub fn set_green(&mut self, value: Fx)
        ensures
            final(self).spec_rgb() == (old(self).spec_rgb().0, value, old(self).spec_rgb().2),
    {
        self.green = value;
    }

    /// Replaces the blue channel.
    pub fn set_blue(&mut self, value: Fx)
        ensures
            final(self).spec_rgb() == (old(self).spec_rgb().0, old(self).spec_rgb().1, value),
    {
        self.blue = value;
    }

    /// Replaces all three channels.
    pub fn set(&mut self, red: Fx, green: Fx, blue: Fx)
        ensures
            final(self).spec_rgb() == (red, green, blue),
    {
        self.red = red;
        self.green = green;
        self.blue = blue;
    }

    /// The channels: red, green, blue.
    pub fn get(&self) -> (r: (Fx, Fx, Fx))
        ensures
            r == self.spec_rgb(),
    {
        (self.red, self.green, self.blue)
    }
}

/// A viewport rectangle, in fixed-point pixels.
#[derive(Clone, Copy, Debug, PartialEq, Eq, Structural)]
pub struct Viewport {
    pub x: Fx,
    pub y: Fx,
    pub width: Fx,
    pub height: Fx,
}

impl Viewport {
    /// The unit viewport at the origin, for contracts.
    pub open spec fn spec_unit() -> Viewport {
        Viewport {
            x: Fx { raw: 0 },
            y: Fx { raw: 0 },
            width: Fx { raw: FX_ONE },
            height: Fx { raw: FX_ONE },
        }
    }

    /// A viewport with the given origin and size.
    pub fn new(x: Fx, y: Fx, width: Fx, height: Fx) -> (r: Viewport)
        ensures
            r == (Viewport { x, y, width, height }),
    {
        Viewport { x, y, width, height }
    }
}

impl Default for Viewport {
    /// The unit viewport at the origin.
    fn default() -> (r: Viewport)
        ensures
            r.x.raw == 0,
            r.y.raw == 0,
            r.width.raw == FX_ONE,
            r.height.raw == FX_ONE,
    {
        Viewport {
            x: Fx { raw: 0 },
            y: Fx { raw: 0 },
            width: Fx { raw: FX_ONE },
            height: Fx { raw: FX_ONE },
        }
    }
}

/// Near and far clip plane depths.
#[derive(Clone, Copy, Debug, PartialEq, Eq, Structural)]
pub struct ClippingPlanes {
    pub near: Fx,
    pub far: Fx,
}

impl ClippingPlanes {
    /// The near plane lies before the far plane and both depths stay
    /// within the supported range.
    pub open spec fn wf(&self) -> bool {
        &&& self.near.raw < self.far.raw
        &&& fx_bounded(self.near, FX_MAX_DEPTH)
        &&& fx_bounded(self.far, FX_MAX_DEPTH)
    }
}

impl Default for ClippingPlanes {
    /// Depths minus one to one.
    fn default() -> (r: ClippingPlanes)
        ensures
            r.near.raw == -FX_ONE,
            r.far.raw == FX_ONE,
            r.wf(),
    {
        ClippingPlanes { near: Fx { raw: -FX_ONE }, far: Fx { raw: FX_ONE } }
    }
}

/// One quad vertex: `[x, y, u, v]` as raw fixed-point values — position
/// offset in the first two lanes, texture coordinate in the last two.
#[derive(Clone, Copy, Debug, PartialEq, Eq)]
pub struct Vertex {
    pub vertex: [i64; 4],
}

/// The per-frame global record: the camera's projection and view
/// matrices, written once per frame before any draw reads them.
#[derive(Clone, Copy, Debug, PartialEq, Eq)]
pub struct GlobalData {
    pub projection: Mat4Q,
    pub view: Mat4Q,
}

impl GlobalData {
    /// A global record from the two matrices.
    pub fn new(projection: Mat4Q, view: Mat4Q) -> (r: GlobalData)
        ensures
            r.projection == projection,
            r.view == view,
    {
        GlobalData { projection, view }
    }

    /// A global record with both matrices the identity.
    pub fn identity() -> (r: GlobalData)
        ensures
            r.projection.d == 1,
            r.view.d == 1,
            forall|i: int| 0 <= i < 16 ==> #[trigger] r.projection.n[i] == spec_identity_entry(i),
            forall|i: int| 0 <= i < 16 ==> #[trigger] r.view.n[i] == spec_identity_entry(i),
    {
        GlobalData { projection: Mat4Q::identity(), view: Mat4Q::identity() }
    }
}

/// The per-draw record pushed immediately before each draw call: the
/// instance's model matrix and its tint with alpha fixed at one.
#[derive(Clone, Copy, Debug, PartialEq, Eq)]
pub struct PerObject {
    pub model: Mat4Q,
    pub color: [Fx; 4],
}

impl PerObject {
    /// A per-draw record from a model matrix and a tint; the alpha
    /// channel is fixed at one.
    pub fn new(model: Mat4Q, color: &Color) -> (r: PerObject)
        ensures
            r.model == model,
            r.color[0] == color.spec_rgb().0,
            r.color[1] == color.spec_rgb().1,
            r.color[2] == color.spec_rgb().2,
            r.color[3].raw == FX_ONE,
    {
        let (red, green, blue) = color.get();
        PerObject { model, color: [red, green, blue, Fx { raw: FX_ONE }] }
    }
}

} // verus!
