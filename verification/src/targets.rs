//! The presentation target: the swapchain, its images, the render pass
//! and one framebuffer per image, with the current extent and viewport.
//!
//! These fields stay consistent as a unit: the only mutator is
//! [`RenderTargets::recreate_swapchain`], which either replaces the whole
//! dependent set or — when the platform rejects the requested extent as
//! temporarily invalid, e.g. a zero size mid-resize — leaves everything
//! exactly as it was and lets the caller retry later.

use vstd::prelude::*;
use crate::data::Viewport;
use crate::fixed::{Fx, FX_ONE, FX_MAX_SCALE};
use crate::resources::{FramebufferId, RenderPassId, RenderTargetId, SwapchainId};

verus! {

/// A pixel extent.
#[derive(Clone, Copy, Debug, PartialEq, Eq, Structural)]
pub struct Extent2 {
    pub width: u32,
    pub height: u32,
}

/// The full-extent viewport for a pixel extent.
pub open spec fn spec_viewport_for_extent(e: Extent2) -> Viewport {
    Viewport {
        x: Fx { raw: 0 },
        y: Fx { raw: 0 },
        width: Fx { raw: (e.width * FX_ONE) as i64 },
        height: Fx { raw: (e.height * FX_ONE) as i64 },
    }
}

/// The viewport covering an extent, from its origin.
pub fn viewport_for_extent(e: &Extent2) -> (r: Viewport)
    ensures
        r == spec_viewport_for_extent(*e),
{
    Viewport {
        x: Fx { raw: 0 },
        y: Fx { raw: 0 },
        width: Fx { raw: (e.width as i64) * FX_ONE },
        height: Fx { raw: (e.height as i64) * FX_ONE },
    }
}

/// The raw aspect ratio of an extent — width over height in fixed point,
/// truncating — clamped into the positive range the projection accepts;
/// one for a degenerate extent.
pub open spec fn spec_aspect_for_extent(e: Extent2) -> int {
    if e.height == 0 {
        FX_ONE as int
    } else {
        let q = (e.width * FX_ONE) / (e.height as int);
        if q < 1 {
            1
        } else if q > FX_MAX_SCALE {
            FX_MAX_SCALE as int
        } else {
            q
        }
    }
}

/// The aspect ratio of an extent, as a scalar the orthographic
/// projection accepts.
pub fn aspect_for_extent(e: &Extent2) -> (r: Fx)
    ensures
        r.raw == spec_aspect_for_extent(*e),
        0 < r.raw <= FX_MAX_SCALE,
{
    if e.height == 0 {
        return Fx { raw: FX_ONE };
    }
    let wide: u64 = ((e.width as u64) * (FX_ONE as u64)) / (e.height as u64);
    proof {
        assert((e.width as u64) * (FX_ONE as u64) == e.width * FX_ONE);
    }
    let raw: i64 = if wide < 1 {
        1
    } else if wide > (FX_MAX_SCALE as u64) {
        FX_MAX_SCALE
    } else {
        wide as i64
    };
    Fx { raw }
}

/// Whether an extent can be presented to at all: both sides nonzero.
pub fn extent_is_presentable(e: &Extent2) -> (r: bool)
    ensures
        r == (e.width > 0 && e.height > 0),
{
    e.width > 0 && e.height > 0
}

/// What the platform answered when asked to rebuild the swapchain.
#[derive(Debug)]
pub enum SwapchainCreateOutcome {
    /// The swapchain was rebuilt: its handle, its images, one
    /// framebuffer per image, and the extent it was created with.
    Created {
        swapchain: SwapchainId,
        images: Vec<RenderTargetId>,
        frame_buffers: Vec<FramebufferId>,
        extent: Extent2,
    },
    /// The platform rejected the requested extent as temporarily
    /// invalid; the previous swapchain is still the valid one.
    ExtentNotSupported,
}

/// The presentation target set.
#[derive(Debug)]
pub struct RenderTargets {
    swapchain: SwapchainId,
    render_pass: RenderPassId,
    images: Vec<RenderTargetId>,
    frame_buffers: Vec<FramebufferId>,
    extent: Extent2,
    viewport: Viewport,
}

impl RenderTargets {
    /// The swapchain handle, for contracts.
    pub closed spec fn spec_swapchain(&self) -> SwapchainId {
        self.swapchain
    }

    /// The render pass handle, for contracts.
    pub closed spec fn spec_render_pass(&self) -> RenderPassId {
        self.render_pass
    }

    /// The swapchain images, for contracts.
    pub closed spec fn spec_images(&self) -> Seq<RenderTargetId> {
        self.images@
    }

    /// The framebuffers, for contracts.
    pub closed spec fn spec_frame_buffers(&self) -> Seq<FramebufferId> {
        self.frame_buffers@
    }

    /// The current extent, for contracts.
    pub closed spec fn spec_extent(&self) -> Extent2 {
        self.extent
    }

    /// The current viewport, for contracts.
    pub closed spec fn spec_viewport(&self) -> Viewport {
        self.viewport
    }

    /// One framebuffer per swapchain image, and the viewport covers the
    /// extent.
    pub open spec fn wf(&self) -> bool {
        &&& self.spec_frame_buffers().len() == self.spec_images().len()
        &&& self.spec_viewport() == spec_viewport_for_extent(self.spec_extent())
    }

    /// A target set over the given handles; the viewport is derived from
    /// the extent.
    pub fn new(
        swapchain: SwapchainId,
        render_pass: RenderPassId,
        images: Vec<RenderTargetId>,
        frame_buffers: Vec<FramebufferId>,
        extent: Extent2,
    ) -> (r: RenderTargets)
        requires
            frame_buffers@.len() == images@.len(),
        ensures
            r.spec_swapchain() == swapchain,
            r.spec_render_pass() == render_pass,
            r.spec_images() == images@,
            r.spec_frame_buffers() == frame_buffers@,
            r.spec_extent() == extent,
            r.wf(),
    {
        let viewport = viewport_for_extent(&extent);
        RenderTargets { swapchain, render_pass, images, frame_buffers, extent, viewport }
    }

    /// The swapchain handle.
    pub fn swapchain(&self) -> (r: SwapchainId)
        ensures
            r == self.spec_swapchain(),
    {
        self.swapchain
    }

    /// The render pass handle.
    pub fn render_pass(&self) -> (r: RenderPassId)
        ensures
            r == self.spec_render_pass(),
    {
        self.render_pass
    }

    /// The swapchain images.
    pub fn render_targets(&self) -> (r: &Vec<RenderTargetId>)
        ensures
            r@ == self.spec_images(),
    {
        &self.images
    }

    /// The framebuffers, one per swapchain image.
    pub fn frame_buffers(&self) -> (r: &Vec<FramebufferId>)
        ensures
            r@ == self.spec_frame_buffers(),
    {
        &self.frame_buffers
    }

    /// The current extent.
    pub fn extent(&self) -> (r: Extent2)
        ensures
            r == self.spec_extent(),
    {
        self.extent
    }

    /// The current viewport.
    pub fn viewport(&self) -> (r: Viewport)
        ensures
            r == self.spec_viewport(),
    {
        self.viewport
    }

    /// Law: applies the platform's answer to a swapchain rebuild as one
    /// unit. When the platform rejected the extent (as it does for a
    /// degenerate, zero-sized extent mid-resize), the previously valid
    /// swapchain, images, framebuffers, extent and viewport are left
    /// exactly as they were — retry later, no failure. When it rebuilt,
    /// the swapchain, its images, their framebuffers and the extent are
    /// replaced together, the viewport follows the new extent, and the
    /// render pass is reused.
    pub fn recreate_swapchain(&mut self, outcome: SwapchainCreateOutcome)
        requires
            old(self).wf(),
            outcome matches SwapchainCreateOutcome::Created { images, frame_buffers, .. } ==>
                frame_buffers@.len() == images@.len(),
        ensures
            outcome is ExtentNotSupported ==> *final(self) == *old(self),
            outcome matches SwapchainCreateOutcome::Created { swapchain, images, frame_buffers, extent } ==> {
                &&& final(self).spec_swapchain() == swapchain
                &&& final(self).spec_images() == images@
                &&& final(self).spec_frame_buffers() == frame_buffers@
                &&& final(self).spec_extent() == extent
                &&& final(self).spec_viewport() == spec_viewport_for_extent(extent)
                &&& final(self).spec_render_pass() == old(self).spec_render_pass()
            },
            final(self).wf(),
    {
        match outcome {
            SwapchainCreateOutcome::Created { swapchain, images, frame_buffers, extent } => {
                self.swapchain = swapchain;
                self.images = images;
                self.frame_buffers = frame_buffers;
                self.extent = extent;
                self.viewport = viewport_for_extent(&extent);
            }
            SwapchainCreateOutcome::ExtentNotSupported => {}
        }
    }
}

} // verus!
