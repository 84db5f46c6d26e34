use terra::camera::Camera;
use terra::context::GraphicsContext;
use terra::data::{ClippingPlanes, Color, Viewport};
use terra::device::{
    select_physical_device, DeviceCandidate, DeviceKind, QueueFamilyInfo, is_device_supported,
};
use terra::fixed::{Fx, FX_ONE};
use terra::mat::{Mat4Q, Vec4Fx};
use terra::program::{
    end_of_frame, plan_frame, AcquireOutcome, DrawCmd, FlushOutcome, FrameEnd, FrameError,
    FramePlan, SpriteRenderProgram,
};
use terra::resources::{
    BufferId, DescriptorSetId, FramebufferId, GraphicsResources, ImageId, PipelineId,
    RenderPassId, RenderTargetId, SpriteResources, SwapchainId,
};
use terra::sprite::{get_id, Sprite};
use terra::sprite_renderer::SpriteRenderer;
use terra::targets::{
    aspect_for_extent, extent_is_presentable, viewport_for_extent, Extent2, RenderTargets,
    SwapchainCreateOutcome,
};

#[test]
fn camera_defaults_match_the_scene_setup() {
    let cam = Camera::new();
    assert_eq!(cam.size().raw(), 3 * FX_ONE);
    assert_eq!(cam.clipping_planes().near.raw(), -FX_ONE);
    assert_eq!(cam.clipping_planes().far.raw(), FX_ONE);
    assert_eq!(cam.clear().get().0.raw(), 0);
    assert_eq!(cam.viewport().width.raw(), FX_ONE);
    // The fresh camera and its transform pass the runtime bound checks
    // a backend makes before drawing.
    assert!(cam.within_limits());
    assert!(cam.transform().within_limits());
}

#[test]
fn ortho_maps_half_extent_corners_to_clip_unit() {
    let mut cam = Camera::new();
    cam.set_size(Fx::from_int(5));
    let m = cam.ortho(Fx::one());
    let s = 5 * FX_ONE;
    for (px, py) in [(s, s), (s, -s), (-s, s), (-s, -s)] {
        let corner = Vec4Fx {
            x: Fx::from_raw(px),
            y: Fx::from_raw(py),
            z: Fx::zero(),
            w: Fx::one(),
        };
        let clip = m.apply(&corner);
        // Exactly plus or minus one: numerator equals the denominator.
        assert_eq!(clip.nx, if px > 0 { clip.d } else { -clip.d });
        assert_eq!(clip.ny, if py > 0 { clip.d } else { -clip.d });
        // The homogeneous coordinate stays exactly one.
        assert_eq!(clip.nw, clip.d);
    }

    // Zero-to-one depth, right-handed: eye z at the near plane (world
    // z = -near) maps to zero, at the far plane to one, exactly.
    let planes = *cam.clipping_planes();
    let at_near = Vec4Fx {
        x: Fx::zero(),
        y: Fx::zero(),
        z: Fx::from_raw(-planes.near.raw()),
        w: Fx::one(),
    };
    let clip = m.apply(&at_near);
    assert_eq!(clip.nz, 0);
    let at_far = Vec4Fx {
        x: Fx::zero(),
        y: Fx::zero(),
        z: Fx::from_raw(-planes.far.raw()),
        w: Fx::one(),
    };
    let clip = m.apply(&at_far);
    assert_eq!(clip.nz, clip.d);
}

#[test]
fn ortho_respects_a_wide_aspect_ratio() {
    let mut cam = Camera::new();
    cam.set_size(Fx::from_int(1));
    let m = cam.ortho(Fx::from_int(2));
    // The visible half width is size times aspect: x at two units maps
    // to one.
    let corner = Vec4Fx {
        x: Fx::from_int(2),
        y: Fx::from_int(1),
        z: Fx::zero(),
        w: Fx::one(),
    };
    let clip = m.apply(&corner);
    assert_eq!(clip.nx, clip.d);
    assert_eq!(clip.ny, clip.d);
}

#[test]
fn identity_matrix_leaves_points_in_place() {
    let m = Mat4Q::identity();
    let p = Vec4Fx {
        x: Fx::from_int(3),
        y: Fx::from_int(-2),
        z: Fx::zero(),
        w: Fx::one(),
    };
    let out = m.apply(&p);
    assert_eq!(out.nx, 3 * (FX_ONE as i128) * (FX_ONE as i128) / (FX_ONE as i128));
    assert_eq!(out.d, FX_ONE as i128);
    assert_eq!(out.nx, 3 * (FX_ONE as i128));
    assert_eq!(out.ny, -2 * (FX_ONE as i128));
}

fn two_instance_scene() -> (GraphicsContext, GraphicsResources, u64, SpriteRenderProgram) {
    let sprite = Sprite::new(get_id("./p.png"), String::from("./p.png"));
    let first = SpriteRenderer::new(sprite.clone(), "one");
    let mut second = SpriteRenderer::new(sprite, "two");
    second.transform_mut().set_position(terra::fixed::Vec2Fx::new(
        Fx::from_int(2),
        Fx::from_int(0),
    ));

    let mut ctx = GraphicsContext::new();
    let sid = ctx.add_sprite_renderer(first);
    ctx.add_sprite_renderer(second);
    ctx.camera_mut().set_size(Fx::from_int(5));

    let mut res = GraphicsResources::new(BufferId(1));
    res.add_sprite(sid, SpriteResources::new(ImageId(2), BufferId(3), DescriptorSetId(4)));

    let program = SpriteRenderProgram::new(PipelineId(5), DescriptorSetId(6));
    (ctx, res, sid, program)
}

#[test]
fn one_frame_draws_two_instances_against_one_bound_state() {
    let (ctx, res, _sid, program) = two_instance_scene();
    let viewport = viewport_for_extent(&Extent2 { width: 800, height: 600 });
    let cmds = program.draw(&ctx, &res, viewport, Color::black(), Fx::one());

    // Header, one bind pair, two push-and-draw pairs, end of pass.
    assert_eq!(cmds.len(), 12);
    assert!(matches!(cmds[0], DrawCmd::BeginPass { .. }));
    assert!(matches!(cmds[1], DrawCmd::SetViewport { .. }));
    assert_eq!(cmds[2], DrawCmd::BindPipeline { pipeline: PipelineId(5) });
    assert!(matches!(cmds[3], DrawCmd::WriteGlobal { .. }));
    assert_eq!(cmds[4], DrawCmd::BindGlobalSet { set: DescriptorSetId(6) });
    assert_eq!(
        cmds[5],
        DrawCmd::BindSpriteBuffers { vertex_buffer: BufferId(3), index_buffer: BufferId(1) },
    );
    assert_eq!(cmds[6], DrawCmd::BindSpriteSet { set: DescriptorSetId(4) });
    assert!(matches!(cmds[7], DrawCmd::PushConstants { .. }));
    assert_eq!(cmds[8], DrawCmd::DrawIndexed { index_count: 6, instance_count: 1 });
    assert!(matches!(cmds[9], DrawCmd::PushConstants { .. }));
    assert_eq!(cmds[10], DrawCmd::DrawIndexed { index_count: 6, instance_count: 1 });
    assert_eq!(cmds[11], DrawCmd::EndPass);

    // Exactly two indexed draws in the whole stream.
    let draws = cmds
        .iter()
        .filter(|c| matches!(c, DrawCmd::DrawIndexed { .. }))
        .count();
    assert_eq!(draws, 2);

    // The two per-draw records differ only in the translation column of
    // the model matrix.
    let (a, b) = match (&cmds[7], &cmds[9]) {
        (DrawCmd::PushConstants { data: a }, DrawCmd::PushConstants { data: b }) => (a, b),
        _ => unreachable!(),
    };
    assert_eq!(a.color, b.color);
    assert_eq!(a.model.d, b.model.d);
    for i in 0..16 {
        if i == 12 || i == 13 {
            continue;
        }
        assert_eq!(a.model.n[i], b.model.n[i]);
    }
    assert_eq!(a.model.n[12], 0);
    assert_eq!(a.model.n[13], 0);
    // Translation by two units: scale one times cosine one times two.
    assert_eq!(b.model.n[12], (FX_ONE) * (FX_ONE) * (2 * FX_ONE));
    assert_eq!(b.model.n[13], 0);
}

#[test]
fn unloaded_sprites_and_empty_buckets_are_skipped() {
    let (mut ctx, res, sid, program) = two_instance_scene();
    // A second sprite with no GPU resources yet: registered, not drawn.
    let ghost_sprite = Sprite::new(get_id("./q.png"), String::from("./q.png"));
    ctx.add_sprite_renderer(SpriteRenderer::new(ghost_sprite, "pending"));

    let viewport = viewport_for_extent(&Extent2 { width: 800, height: 600 });
    let cmds = program.draw(&ctx, &res, viewport, Color::black(), Fx::one());
    let draws = cmds
        .iter()
        .filter(|c| matches!(c, DrawCmd::DrawIndexed { .. }))
        .count();
    assert_eq!(draws, 2);

    // Empty the first sprite's bucket: nothing is drawn at all.
    let ids: Vec<u64> = ctx
        .sprite_renderers()
        .iter()
        .filter(|b| b.sprite_id == sid)
        .flat_map(|b| b.renderers.iter().map(|r| r.id()))
        .collect();
    for id in ids {
        ctx.remove_sprite_renderer(sid, id);
    }
    let cmds = program.draw(&ctx, &res, viewport, Color::black(), Fx::one());
    assert_eq!(cmds.len(), 6);
    assert!(!cmds.iter().any(|c| matches!(c, DrawCmd::DrawIndexed { .. })));
}

#[test]
fn rejected_extent_leaves_targets_untouched() {
    let mut targets = RenderTargets::new(
        SwapchainId(1),
        RenderPassId(2),
        vec![RenderTargetId(3), RenderTargetId(4)],
        vec![FramebufferId(5), FramebufferId(6)],
        Extent2 { width: 800, height: 600 },
    );
    // A zero-size extent mid-resize: the platform refuses, everything
    // stays as it was.
    assert!(!extent_is_presentable(&Extent2 { width: 0, height: 600 }));
    targets.recreate_swapchain(SwapchainCreateOutcome::ExtentNotSupported);
    assert_eq!(targets.swapchain(), SwapchainId(1));
    assert_eq!(targets.render_pass(), RenderPassId(2));
    assert_eq!(targets.render_targets().as_slice(), &[RenderTargetId(3), RenderTargetId(4)]);
    assert_eq!(targets.frame_buffers().as_slice(), &[FramebufferId(5), FramebufferId(6)]);
    assert_eq!(targets.extent(), Extent2 { width: 800, height: 600 });
    assert_eq!(targets.viewport(), viewport_for_extent(&Extent2 { width: 800, height: 600 }));
}

#[test]
fn successful_recreation_replaces_the_dependent_set_as_a_unit() {
    let mut targets = RenderTargets::new(
        SwapchainId(1),
        RenderPassId(2),
        vec![RenderTargetId(3)],
        vec![FramebufferId(5)],
        Extent2 { width: 800, height: 600 },
    );
    targets.recreate_swapchain(SwapchainCreateOutcome::Created {
        swapchain: SwapchainId(7),
        images: vec![RenderTargetId(8), RenderTargetId(9)],
        frame_buffers: vec![FramebufferId(10), FramebufferId(11)],
        extent: Extent2 { width: 1024, height: 768 },
    });
    assert_eq!(targets.swapchain(), SwapchainId(7));
    // The render pass is reused.
    assert_eq!(targets.render_pass(), RenderPassId(2));
    assert_eq!(targets.render_targets().len(), 2);
    assert_eq!(targets.frame_buffers().len(), 2);
    assert_eq!(targets.extent(), Extent2 { width: 1024, height: 768 });
    assert_eq!(targets.viewport().width.raw(), 1024 * FX_ONE);
    assert_eq!(targets.viewport().height.raw(), 768 * FX_ONE);
}

#[test]
fn acquire_policy_draws_or_defers() {
    assert_eq!(
        plan_frame(&AcquireOutcome::Acquired { index: 1, suboptimal: false }),
        FramePlan::Render { image_index: 1, suboptimal: false },
    );
    assert_eq!(
        plan_frame(&AcquireOutcome::Acquired { index: 0, suboptimal: true }),
        FramePlan::Render { image_index: 0, suboptimal: true },
    );
    assert_eq!(plan_frame(&AcquireOutcome::OutOfDate), FramePlan::SkipAndRecreate);
}

#[test]
fn end_of_frame_policy_retries_transients_and_stops_on_defects() {
    assert_eq!(end_of_frame(&FlushOutcome::Completed, false), FrameEnd::Continue);
    assert_eq!(end_of_frame(&FlushOutcome::Completed, true), FrameEnd::RecreateTargets);
    assert_eq!(end_of_frame(&FlushOutcome::OutOfDate, false), FrameEnd::RecreateTargets);
    assert_eq!(end_of_frame(&FlushOutcome::OutOfDate, true), FrameEnd::RecreateTargets);
    assert_eq!(
        end_of_frame(&FlushOutcome::ResourceConflict, false),
        FrameEnd::Fatal(FrameError::ResourceAccessConflict),
    );
    assert_eq!(
        end_of_frame(&FlushOutcome::Failed, true),
        FrameEnd::Fatal(FrameError::FlushFailed),
    );
}

fn candidate(kind: DeviceKind, supported: bool, families: Vec<QueueFamilyInfo>) -> DeviceCandidate {
    DeviceCandidate { kind, supports_required_extensions: supported, queue_families: families }
}

fn graphics_family() -> QueueFamilyInfo {
    QueueFamilyInfo { graphics: true, surface_support: true }
}

#[test]
fn device_selection_prefers_the_best_eligible_kind() {
    let candidates = vec![
        candidate(DeviceKind::Cpu, true, vec![graphics_family()]),
        candidate(DeviceKind::DiscreteGpu, false, vec![graphics_family()]),
        candidate(
            DeviceKind::IntegratedGpu,
            true,
            vec![QueueFamilyInfo { graphics: false, surface_support: true }, graphics_family()],
        ),
        candidate(DeviceKind::IntegratedGpu, true, vec![graphics_family()]),
    ];
    // The discrete GPU lacks the extensions; the first integrated GPU
    // wins, with its second queue family.
    assert_eq!(select_physical_device(&candidates), Some((2, 1)));
    assert_eq!(is_device_supported(&candidates[1]), None);
    assert_eq!(is_device_supported(&candidates[2]), Some(1));
}

#[test]
fn device_selection_fails_without_an_eligible_device() {
    let candidates = vec![
        candidate(DeviceKind::DiscreteGpu, true, vec![QueueFamilyInfo {
            graphics: true,
            surface_support: false,
        }]),
        candidate(DeviceKind::Other, false, vec![graphics_family()]),
    ];
    assert_eq!(select_physical_device(&candidates), None);
}

#[test]
fn aspect_ratio_follows_the_extent_within_bounds() {
    // A 2:1 extent: aspect two, exactly.
    assert_eq!(aspect_for_extent(&Extent2 { width: 1600, height: 800 }).raw(), 2 * FX_ONE);
    // A square extent: aspect one.
    assert_eq!(aspect_for_extent(&Extent2 { width: 800, height: 800 }).raw(), FX_ONE);
    // Truncating division: 4:3 in fixed point.
    assert_eq!(
        aspect_for_extent(&Extent2 { width: 4, height: 3 }).raw(),
        (4 * FX_ONE as i64) / 3,
    );
    // Degenerate and extreme extents are clamped into range.
    assert_eq!(aspect_for_extent(&Extent2 { width: 800, height: 0 }).raw(), FX_ONE);
    assert_eq!(aspect_for_extent(&Extent2 { width: 0, height: 800 }).raw(), 1);
    assert_eq!(
        aspect_for_extent(&Extent2 { width: 4000000, height: 1 }).raw(),
        terra::fixed::FX_MAX_SCALE,
    );
}

#[test]
fn viewport_and_planes_values() {
    let v = viewport_for_extent(&Extent2 { width: 640, height: 480 });
    assert_eq!(v, Viewport::new(
        Fx::zero(),
        Fx::zero(),
        Fx::from_int(640),
        Fx::from_int(480),
    ));
    let planes = ClippingPlanes::default();
    assert_eq!(planes.near.raw(), -FX_ONE);
    assert_eq!(planes.far.raw(), FX_ONE);
    assert!(extent_is_presentable(&Extent2 { width: 1, height: 1 }));
}
