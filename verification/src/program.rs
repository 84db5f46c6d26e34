//! The sprite render program: what one frame does, as data.
//!
//! Each frame the program emits one command stream: begin the pass with a
//! clear color, set the viewport, bind the pipeline, write the camera's
//! projection and view into the global record (before anything reads it),
//! bind the global descriptor set, then for each sprite bucket with
//! GPU-resident resources bind that sprite's vertex buffer, the shared
//! index buffer and its texture set once, and push one per-draw record
//! followed by one indexed draw of six indices per instance, in the
//! bucket's insertion order. Buckets with no instances and sprites whose
//! resources are not resident yet are skipped. The backend interprets the
//! stream in order against the real GPU.
//!
//! The frame loop's decisions — what to do after acquiring a swapchain
//! image and after presenting — are small total functions here, so the
//! retry-versus-fatal policy is pinned by contracts.

use vstd::prelude::*;
use crate::camera::{Camera, spec_ortho_matrix};
use crate::context::{Bucket, GraphicsContext};
use crate::data::{Color, GlobalData, PerObject, Viewport};
use crate::fixed::{Fx, FX_ONE, FX_MAX_SCALE};
use crate::resources::{BufferId, DescriptorSetId, GraphicsResources, PipelineId, SpriteResources};
use crate::sprite_renderer::SpriteRenderer;
use crate::transform::spec_model_matrix;

verus! {

/// One command of a frame's stream, interpreted in order by the backend.
#[derive(Clone, Copy, Debug, PartialEq, Eq)]
pub enum DrawCmd {
    /// Begin the render pass on the acquired image's framebuffer, with
    /// this clear color.
    BeginPass { clear: Color },
    /// Set the viewport to the current target extent.
    SetViewport { viewport: Viewport },
    /// Bind the sprite-drawing pipeline.
    BindPipeline { pipeline: PipelineId },
    /// Write the per-frame global record; precedes every draw that reads
    /// it, in stream order.
    WriteGlobal { data: GlobalData },
    /// Bind the global descriptor set at layout slot zero.
    BindGlobalSet { set: DescriptorSetId },
    /// Bind one sprite's vertex buffer and the shared index buffer.
    BindSpriteBuffers { vertex_buffer: BufferId, index_buffer: BufferId },
    /// Bind one sprite's texture descriptor set at layout slot one.
    BindSpriteSet { set: DescriptorSetId },
    /// Push one instance's per-draw record.
    PushConstants { data: PerObject },
    /// Issue one indexed draw.
    DrawIndexed { index_count: u32, instance_count: u32 },
    /// End the render pass.
    EndPass,
}

/// The per-draw record of an instance: its model matrix and its tint
/// with alpha one.
pub open spec fn spec_per_object(r: SpriteRenderer) -> PerObject {
    PerObject {
        model: spec_model_matrix(r.spec_transform()),
        color: [
            r.spec_color().spec_rgb().0,
            r.spec_color().spec_rgb().1,
            r.spec_color().spec_rgb().2,
            Fx { raw: FX_ONE },
        ],
    }
}

/// The per-frame global record for a camera: its orthographic projection
/// and its transform as the view matrix.
pub open spec fn spec_global_data(cam: Camera, aspect: Fx) -> GlobalData {
    GlobalData {
        projection: spec_ortho_matrix(cam.spec_size(), aspect, cam.spec_clipping_planes()),
        view: spec_model_matrix(cam.spec_transform()),
    }
}

/// One instance's commands: its per-draw record, then one indexed draw
/// of the quad's six indices.
pub open spec fn spec_instance_cmds(r: SpriteRenderer) -> Seq<DrawCmd> {
    seq![
        DrawCmd::PushConstants { data: spec_per_object(r) },
        DrawCmd::DrawIndexed { index_count: 6u32, instance_count: 1u32 },
    ]
}

/// The commands of a bucket's instances, in insertion order.
pub open spec fn spec_instances_cmds(rs: Seq<SpriteRenderer>) -> Seq<DrawCmd>
    decreases rs.len(),
{
    if rs.len() == 0 {
        Seq::empty()
    } else {
        spec_instances_cmds(rs.drop_last()) + spec_instance_cmds(rs.last())
    }
}

/// One bucket's commands: bind the sprite's buffers and texture set
/// once, then draw each instance. A bucket with no instances, or whose
/// sprite has no resident resources yet, contributes nothing — not yet
/// loaded is not an error.
pub open spec fn spec_bucket_cmds(b: Bucket, res: GraphicsResources) -> Seq<DrawCmd> {
    match res.spec_sprite(b.sprite_id) {
        Some(sr) => if b.renderers@.len() > 0 {
            seq![
                DrawCmd::BindSpriteBuffers {
                    vertex_buffer: sr.vertex_buffer,
                    index_buffer: res.spec_index_buffer(),
                },
                DrawCmd::BindSpriteSet { set: sr.image_set },
            ] + spec_instances_cmds(b.renderers@)
        } else {
            Seq::empty()
        },
        None => Seq::empty(),
    }
}

/// The commands of all buckets, in bucket order.
pub open spec fn spec_buckets_cmds(bs: Seq<Bucket>, res: GraphicsResources) -> Seq<DrawCmd>
    decreases bs.len(),
{
    if bs.len() == 0 {
        Seq::empty()
    } else {
        spec_buckets_cmds(bs.drop_last(), res) + spec_bucket_cmds(bs.last(), res)
    }
}

/// A frame's whole command stream.
pub open spec fn spec_draw_cmds(
    program: SpriteRenderProgram,
    ctx: GraphicsContext,
    res: GraphicsResources,
    viewport: Viewport,
    clear: Color,
    aspect: Fx,
) -> Seq<DrawCmd> {
    seq![
        DrawCmd::BeginPass { clear },
        DrawCmd::SetViewport { viewport },
        DrawCmd::BindPipeline { pipeline: program.spec_pipeline() },
        DrawCmd::WriteGlobal { data: spec_global_data(ctx.spec_camera(), aspect) },
        DrawCmd::BindGlobalSet { set: program.spec_global_set() },
    ] + spec_buckets_cmds(ctx.spec_buckets(), res) + seq![DrawCmd::EndPass]
}

/// Every registered instance's transform is within the bounds the model
/// matrix needs.
pub open spec fn all_instances_wf(ctx: GraphicsContext) -> bool {
    forall|bi: int, k: int|
        0 <= bi < ctx.spec_buckets().len() && 0 <= k < ctx.spec_buckets()[bi].renderers@.len()
            ==> (#[trigger] ctx.spec_buckets()[bi].renderers@[k]).spec_transform().wf()
}

/// The sprite render program: the graphics pipeline and the global
/// descriptor set bound at slot zero.
#[derive(Clone, Copy, Debug, PartialEq, Eq, Structural)]
pub struct SpriteRenderProgram {
    pipeline: PipelineId,
    global_descriptor_set: DescriptorSetId,
}

impl SpriteRenderProgram {
    /// The pipeline handle, for contracts.
    pub closed spec fn spec_pipeline(&self) -> PipelineId {
        self.pipeline
    }

    /// The global descriptor set handle, for contracts.
    pub closed spec fn spec_global_set(&self) -> DescriptorSetId {
        self.global_descriptor_set
    }

    /// A program over an already-built pipeline and global descriptor
    /// set.
    pub fn new(pipeline: PipelineId, global_descriptor_set: DescriptorSetId) -> (r:
        SpriteRenderProgram)
        ensures
            r.spec_pipeline() == pipeline,
            r.spec_global_set() == global_descriptor_set,
    {
        SpriteRenderProgram { pipeline, global_descriptor_set }
    }

    /// Builds one frame's command stream: exactly
    /// [`spec_draw_cmds`] for the scene, the resident resources, the
    /// viewport, the clear color and the aspect ratio.
    pub fn draw(
        &self,
        ctx: &GraphicsContext,
        res: &GraphicsResources,
        viewport: Viewport,
        clear: Color,
        aspect: Fx,
    ) -> (out: Vec<DrawCmd>)
        requires
            ctx.spec_camera().wf(),
            ctx.spec_camera().spec_transform().wf(),
            all_instances_wf(*ctx),
            0 < aspect.raw <= FX_MAX_SCALE,
        ensures
            out@ == spec_draw_cmds(*self, *ctx, *res, viewport, clear, aspect),
    {
        let ghost header = seq![
            DrawCmd::BeginPass { clear },
            DrawCmd::SetViewport { viewport },
            DrawCmd::BindPipeline { pipeline: self.spec_pipeline() },
            DrawCmd::WriteGlobal { data: spec_global_data(ctx.spec_camera(), aspect) },
            DrawCmd::BindGlobalSet { set: self.spec_global_set() },
        ];
        let mut out: Vec<DrawCmd> = Vec::new();
        out.push(DrawCmd::BeginPass { clear });
        out.push(DrawCmd::SetViewport { viewport });
        out.push(DrawCmd::BindPipeline { pipeline: self.pipeline });
        let projection = ctx.camera().ortho(aspect);
        let view = ctx.camera().transform().matrix();
        out.push(DrawCmd::WriteGlobal { data: GlobalData::new(projection, view) });
        out.push(DrawCmd::BindGlobalSet { set: self.global_descriptor_set });
        proof {
            assert(out@ =~= header);
        }
        let buckets = ctx.sprite_renderers();
        let ghost bs = buckets@;
        let mut bi: usize = 0;
        proof {
            assert(bs.subrange(0, 0) =~= Seq::<Bucket>::empty());
            assert(out@ =~= header + spec_buckets_cmds(bs.subrange(0, 0), *res));
        }
        while bi < buckets.len()
            invariant
                bi <= bs.len(),
                buckets@ == bs,
                bs == ctx.spec_buckets(),
                all_instances_wf(*ctx),
                out@ == header + spec_buckets_cmds(bs.subrange(0, bi as int), *res),
            decreases bs.len() - bi,
        {
            let b = &buckets[bi];
            let ghost pre = out@;
            match res.sprite(&b.sprite_id) {
                Some(sr) => {
                    if b.renderers.len() > 0 {
                        out.push(DrawCmd::BindSpriteBuffers {
                            vertex_buffer: sr.vertex_buffer(),
                            index_buffer: res.sprite_index_buffer(),
                        });
                        out.push(DrawCmd::BindSpriteSet { set: sr.image_set() });
                        let ghost binds = seq![
                            DrawCmd::BindSpriteBuffers {
                                vertex_buffer: sr.vertex_buffer,
                                index_buffer: res.spec_index_buffer(),
                            },
                            DrawCmd::BindSpriteSet { set: sr.image_set },
                        ];
                        proof {
                            assert(out@ =~= pre + binds);
                        }
                        let rs = &b.renderers;
                        let mut k: usize = 0;
                        proof {
                            assert(rs@.subrange(0, 0) =~= Seq::<SpriteRenderer>::empty());
                            assert(out@ =~= pre + binds + spec_instances_cmds(rs@.subrange(0, 0)));
                        }
                        while k < rs.len()
                            invariant
                                k <= rs@.len(),
                                rs@ == bs[bi as int].renderers@,
                                bi < bs.len(),
                                forall|t: int| 0 <= t < rs@.len() ==> (#[trigger] rs@[t]).spec_transform().wf(),
                                out@ == pre + binds + spec_instances_cmds(rs@.subrange(0, k as int)),
                            decreases rs@.len() - k,
                        {
                            let inst = &rs[k];
                            let model = inst.transform().matrix();
                            let data = PerObject::new(model, inst.color());
                            out.push(DrawCmd::PushConstants { data });
                            out.push(DrawCmd::DrawIndexed { index_count: 6, instance_count: 1 });
                            proof {
                                assert(data.color =~= spec_per_object(rs@[k as int]).color);
                                assert(data.model == spec_per_object(rs@[k as int]).model);
                                assert(data =~= spec_per_object(rs@[k as int]));
                                let taken = rs@.subrange(0, k + 1);
                                assert(taken.drop_last() =~= rs@.subrange(0, k as int));
                                assert(taken.last() == rs@[k as int]);
                                assert(out@ =~= pre + binds + spec_instances_cmds(taken));
                            }
                            k = k + 1;
                        }
                        proof {
                            assert(rs@.subrange(0, rs@.len() as int) =~= rs@);
                            assert(out@ =~= pre + (binds + spec_instances_cmds(rs@)));
                            assert(spec_bucket_cmds(bs[bi as int], *res) == binds
                                + spec_instances_cmds(rs@));
                        }
                    } else {
                        proof {
                            assert(spec_bucket_cmds(bs[bi as int], *res)
                                =~= Seq::<DrawCmd>::empty());
                            assert(out@ =~= pre + spec_bucket_cmds(bs[bi as int], *res));
                        }
                    }
                }
                None => {
                    proof {
                        assert(spec_bucket_cmds(bs[bi as int], *res) =~= Seq::<DrawCmd>::empty());
                        assert(out@ =~= pre + spec_bucket_cmds(bs[bi as int], *res));
                    }
                }
            }
            proof {
                let taken = bs.subrange(0, bi + 1);
                assert(taken.drop_last() =~= bs.subrange(0, bi as int));
                assert(taken.last() == bs[bi as int]);
                assert(out@ =~= header + spec_buckets_cmds(taken, *res));
            }
            bi = bi + 1;
        }
        proof {
            assert(bs.subrange(0, bs.len() as int) =~= bs);
        }
        out.push(DrawCmd::EndPass);
        proof {
            assert(out@ =~= spec_draw_cmds(*self, *ctx, *res, viewport, clear, aspect));
        }
        out
    }
}

/// What acquiring the next swapchain image came to: either an image
/// index (possibly flagged suboptimal) or the swapchain is out of date.
/// Any other acquire failure is fatal and never reaches the frame plan.
#[derive(Clone, Copy, Debug, PartialEq, Eq, Structural)]
pub enum AcquireOutcome {
    /// An image was acquired; `suboptimal` means it is still presentable
    /// but no longer ideal (e.g. mid-resize).
    Acquired { index: u32, suboptimal: bool },
    /// The swapchain no longer matches the surface.
    OutOfDate,
}

/// What to do with this frame after the acquire step.
#[derive(Clone, Copy, Debug, PartialEq, Eq, Structural)]
pub enum FramePlan {
    /// Draw to the acquired image, carrying the suboptimal flag to the
    /// end-of-frame decision.
    Render { image_index: u32, suboptimal: bool },
    /// Skip drawing this frame and recreate the presentation targets
    /// first; out of date is expected, not an error.
    SkipAndRecreate,
}

/// The acquire step's policy: draw on success, defer and recreate when
/// the swapchain is out of date.
pub fn plan_frame(outcome: &AcquireOutcome) -> (r: FramePlan)
    ensures
        outcome matches AcquireOutcome::Acquired { index, suboptimal } ==> r
            == (FramePlan::Render { image_index: *index, suboptimal: *suboptimal }),
        outcome is OutOfDate ==> r == FramePlan::SkipAndRecreate,
{
    match outcome {
        AcquireOutcome::Acquired { index, suboptimal } => FramePlan::Render {
            image_index: *index,
            suboptimal: *suboptimal,
        },
        AcquireOutcome::OutOfDate => FramePlan::SkipAndRecreate,
    }
}

/// What submitting and presenting the frame came to.
#[derive(Clone, Copy, Debug, PartialEq, Eq, Structural)]
pub enum FlushOutcome {
    /// The GPU signalled completion.
    Completed,
    /// The swapchain went out of date at present time.
    OutOfDate,
    /// A resource was accessed with conflicting usage in the
    /// submission: a command-recording defect.
    ResourceConflict,
    /// Any other submission or present failure.
    Failed,
}

/// An unrecoverable frame failure.
#[derive(Clone, Copy, Debug, PartialEq, Eq, Structural)]
pub enum FrameError {
    /// A resource was used with conflicting synchronization in one
    /// submission.
    ResourceAccessConflict,
    /// Submission or presentation failed outright.
    FlushFailed,
}

/// The decision that closes a frame.
#[derive(Clone, Copy, Debug, PartialEq, Eq, Structural)]
pub enum FrameEnd {
    /// The frame completed and the targets are still ideal.
    Continue,
    /// The frame is done with, but the presentation targets must be
    /// rebuilt before the next one.
    RecreateTargets,
    /// The process must stop: this is a defect, not a transient
    /// condition.
    Fatal(FrameError),
}

/// The end-of-frame policy: out-of-date and suboptimal presentation are
/// the only retried paths — they defer to a target rebuild before the
/// next frame; a resource conflict or any other flush failure is fatal.
pub fn end_of_frame(flush: &FlushOutcome, suboptimal: bool) -> (r: FrameEnd)
    ensures
        *flush == FlushOutcome::Completed && !suboptimal ==> r == FrameEnd::Continue,
        *flush == FlushOutcome::Completed && suboptimal ==> r == FrameEnd::RecreateTargets,
        *flush == FlushOutcome::OutOfDate ==> r == FrameEnd::RecreateTargets,
        *flush == FlushOutcome::ResourceConflict ==> r == FrameEnd::Fatal(
            FrameError::ResourceAccessConflict,
        ),
        *flush == FlushOutcome::Failed ==> r == FrameEnd::Fatal(FrameError::FlushFailed),
{
    match flush {
        FlushOutcome::Completed => if suboptimal {
            FrameEnd::RecreateTargets
        } else {
            FrameEnd::Continue
        },
        FlushOutcome::OutOfDate => FrameEnd::RecreateTargets,
        FlushOutcome::ResourceConflict => FrameEnd::Fatal(FrameError::ResourceAccessConflict),
        FlushOutcome::Failed => FrameEnd::Fatal(FrameError::FlushFailed),
    }
}

/// The predicate picking the indexed draw commands of a stream.
pub open spec fn spec_is_draw() -> spec_fn(DrawCmd) -> bool {
    |c: DrawCmd| c is DrawIndexed
}

/// The number of indexed draws in a command stream.
pub open spec fn spec_draw_count(cmds: Seq<DrawCmd>) -> nat {
    cmds.filter(spec_is_draw()).len()
}

/// The number of instances a frame is expected to draw: every instance
/// in a bucket whose sprite has GPU-resident resources.
pub open spec fn spec_live_instance_count(bs: Seq<Bucket>, res: GraphicsResources) -> nat
    decreases bs.len(),
{
    if bs.len() == 0 {
        0
    } else {
        spec_live_instance_count(bs.drop_last(), res) + (match res.spec_sprite(
            bs.last().sprite_id,
        ) {
            Some(_) => bs.last().renderers@.len(),
            None => 0nat,
        })
    }
}

/// A bucket's instance stream holds one indexed draw per instance.
proof fn lemma_instances_draw_count(rs: Seq<SpriteRenderer>)
    ensures
        spec_draw_count(spec_instances_cmds(rs)) == rs.len(),
    decreases rs.len(),
{
    reveal_with_fuel(Seq::<_>::filter, 4);
    if rs.len() == 0 {
        assert(spec_instances_cmds(rs).filter(spec_is_draw()) =~= Seq::<DrawCmd>::empty());
    } else {
        lemma_instances_draw_count(rs.drop_last());
        let pre = spec_instances_cmds(rs.drop_last());
        let two = spec_instance_cmds(rs.last());
        Seq::<DrawCmd>::filter_distributes_over_add(pre, two, spec_is_draw());
        assert(two.drop_last() =~= seq![DrawCmd::PushConstants { data: spec_per_object(rs.last()) }]);
        assert(two.drop_last().drop_last() =~= Seq::<DrawCmd>::empty());
        assert(two.filter(spec_is_draw()) =~= seq![
            DrawCmd::DrawIndexed { index_count: 6u32, instance_count: 1u32 },
        ]);
    }
}

/// One bucket's stream holds one indexed draw per instance when the
/// sprite is resident, none otherwise.
proof fn lemma_bucket_draw_count(b: Bucket, res: GraphicsResources)
    ensures
        spec_draw_count(spec_bucket_cmds(b, res)) == (match res.spec_sprite(b.sprite_id) {
            Some(_) => b.renderers@.len(),
            None => 0nat,
        }),
{
    reveal_with_fuel(Seq::<_>::filter, 4);
    match res.spec_sprite(b.sprite_id) {
        Some(sr) => {
            if b.renderers@.len() > 0 {
                let binds = seq![
                    DrawCmd::BindSpriteBuffers {
                        vertex_buffer: sr.vertex_buffer,
                        index_buffer: res.spec_index_buffer(),
                    },
                    DrawCmd::BindSpriteSet { set: sr.image_set },
                ];
                Seq::<DrawCmd>::filter_distributes_over_add(
                    binds,
                    spec_instances_cmds(b.renderers@),
                    spec_is_draw(),
                );
                assert(binds.drop_last() =~= seq![
                    DrawCmd::BindSpriteBuffers {
                        vertex_buffer: sr.vertex_buffer,
                        index_buffer: res.spec_index_buffer(),
                    },
                ]);
                assert(binds.drop_last().drop_last() =~= Seq::<DrawCmd>::empty());
                assert(binds.filter(spec_is_draw()) =~= Seq::<DrawCmd>::empty());
                lemma_instances_draw_count(b.renderers@);
            } else {
                assert(spec_bucket_cmds(b, res).filter(spec_is_draw())
                    =~= Seq::<DrawCmd>::empty());
            }
        }
        None => {
            assert(spec_bucket_cmds(b, res).filter(spec_is_draw()) =~= Seq::<DrawCmd>::empty());
        }
    }
}

/// All buckets together: one indexed draw per live instance.
proof fn lemma_buckets_draw_count(bs: Seq<Bucket>, res: GraphicsResources)
    ensures
        spec_draw_count(spec_buckets_cmds(bs, res)) == spec_live_instance_count(bs, res),
    decreases bs.len(),
{
    reveal_with_fuel(Seq::<_>::filter, 2);
    if bs.len() == 0 {
        assert(spec_buckets_cmds(bs, res).filter(spec_is_draw()) =~= Seq::<DrawCmd>::empty());
    } else {
        lemma_buckets_draw_count(bs.drop_last(), res);
        Seq::<DrawCmd>::filter_distributes_over_add(
            spec_buckets_cmds(bs.drop_last(), res),
            spec_bucket_cmds(bs.last(), res),
            spec_is_draw(),
        );
        lemma_bucket_draw_count(bs.last(), res);
    }
}

/// Law: a frame issues exactly one indexed draw call per registered
/// instance whose sprite is GPU-resident — two instances of one sprite
/// mean exactly two draws, and instances of sprites not yet resident
/// contribute none.
pub proof fn lemma_one_draw_per_live_instance(
    program: SpriteRenderProgram,
    ctx: GraphicsContext,
    res: GraphicsResources,
    viewport: Viewport,
    clear: Color,
    aspect: Fx,
)
    ensures
        spec_draw_count(spec_draw_cmds(program, ctx, res, viewport, clear, aspect))
            == spec_live_instance_count(ctx.spec_buckets(), res),
{
    reveal_with_fuel(Seq::<_>::filter, 8);
    let header = seq![
        DrawCmd::BeginPass { clear },
        DrawCmd::SetViewport { viewport },
        DrawCmd::BindPipeline { pipeline: program.spec_pipeline() },
        DrawCmd::WriteGlobal { data: spec_global_data(ctx.spec_camera(), aspect) },
        DrawCmd::BindGlobalSet { set: program.spec_global_set() },
    ];
    let mid = spec_buckets_cmds(ctx.spec_buckets(), res);
    let tail = seq![DrawCmd::EndPass];
    Seq::<DrawCmd>::filter_distributes_over_add(header + mid, tail, spec_is_draw());
    Seq::<DrawCmd>::filter_distributes_over_add(header, mid, spec_is_draw());
    assert(header.drop_last().drop_last().drop_last().drop_last().drop_last()
        =~= Seq::<DrawCmd>::empty());
    assert(header.filter(spec_is_draw()) =~= Seq::<DrawCmd>::empty());
    assert(tail.drop_last() =~= Seq::<DrawCmd>::empty());
    assert(tail.filter(spec_is_draw()) =~= Seq::<DrawCmd>::empty());
    lemma_buckets_draw_count(ctx.spec_buckets(), res);
}

/// Instance command streams hold only per-draw records and indexed
/// draws.
proof fn lemma_instances_cmds_kinds(rs: Seq<SpriteRenderer>, j: int)
    requires
        0 <= j < spec_instances_cmds(rs).len(),
    ensures
        spec_instances_cmds(rs)[j] is PushConstants || spec_instances_cmds(rs)[j] is DrawIndexed,
    decreases rs.len(),
{
    let pre = spec_instances_cmds(rs.drop_last());
    if j < pre.len() {
        lemma_instances_cmds_kinds(rs.drop_last(), j);
    }
}

/// Bucket command streams hold only binds, per-draw records and indexed
/// draws — never a global write.
proof fn lemma_bucket_cmds_no_global_write(b: Bucket, res: GraphicsResources, j: int)
    requires
        0 <= j < spec_bucket_cmds(b, res).len(),
    ensures
        !(spec_bucket_cmds(b, res)[j] is WriteGlobal),
        !(spec_bucket_cmds(b, res)[j] is BeginPass),
{
    if res.spec_sprite(b.sprite_id) is Some && b.renderers@.len() > 0 {
        if j >= 2 {
            lemma_instances_cmds_kinds(b.renderers@, j - 2);
        }
    }
}

/// No bucket contributes a global write.
proof fn lemma_buckets_cmds_no_global_write(bs: Seq<Bucket>, res: GraphicsResources, j: int)
    requires
        0 <= j < spec_buckets_cmds(bs, res).len(),
    ensures
        !(spec_buckets_cmds(bs, res)[j] is WriteGlobal),
        !(spec_buckets_cmds(bs, res)[j] is BeginPass),
    decreases bs.len(),
{
    let pre = spec_buckets_cmds(bs.drop_last(), res);
    if j < pre.len() {
        lemma_buckets_cmds_no_global_write(bs.drop_last(), res, j);
    } else {
        lemma_bucket_cmds_no_global_write(bs.last(), res, j - pre.len());
    }
}

/// Law: the camera's projection and view are written into the global
/// record exactly once per frame, at a fixed position in the stream
/// ahead of every indexed draw — the write happens before any draw that
/// reads it, and nothing else writes it.
pub proof fn lemma_global_write_precedes_draws(
    program: SpriteRenderProgram,
    ctx: GraphicsContext,
    res: GraphicsResources,
    viewport: Viewport,
    clear: Color,
    aspect: Fx,
    i: int,
)
    requires
        0 <= i < spec_draw_cmds(program, ctx, res, viewport, clear, aspect).len(),
    ensures
        spec_draw_cmds(program, ctx, res, viewport, clear, aspect)[3] == (DrawCmd::WriteGlobal {
            data: spec_global_data(ctx.spec_camera(), aspect),
        }),
        spec_draw_cmds(program, ctx, res, viewport, clear, aspect)[i] is DrawIndexed ==> i > 3,
        spec_draw_cmds(program, ctx, res, viewport, clear, aspect)[i] is WriteGlobal ==> i == 3,
{
    let cmds = spec_draw_cmds(program, ctx, res, viewport, clear, aspect);
    let header = seq![
        DrawCmd::BeginPass { clear },
        DrawCmd::SetViewport { viewport },
        DrawCmd::BindPipeline { pipeline: program.spec_pipeline() },
        DrawCmd::WriteGlobal { data: spec_global_data(ctx.spec_camera(), aspect) },
        DrawCmd::BindGlobalSet { set: program.spec_global_set() },
    ];
    let mid = spec_buckets_cmds(ctx.spec_buckets(), res);
    assert(cmds == header + mid + seq![DrawCmd::EndPass]);
    assert(cmds[3] == header[3]);
    if i < 5 {
        assert(cmds[i] == header[i]);
    } else if i < 5 + mid.len() {
        assert(cmds[i] == mid[i - 5]);
        lemma_buckets_cmds_no_global_write(ctx.spec_buckets(), res, i - 5);
    } else {
        assert(cmds[i] == DrawCmd::EndPass);
    }
}

/// Law: removing one of two instances that reference the same sprite
/// leaves the sprite's GPU resources intact and the remaining instance
/// still drawable. The bucket keeps exactly the other instance; the
/// resource cache, which the registry removal never touches, still holds
/// the sprite; and a bucket in that state still binds the sprite's
/// buffers and texture set and draws the remaining instance.
pub proof fn lemma_remove_keeps_sibling_drawable(
    before: GraphicsContext,
    after: GraphicsContext,
    res: GraphicsResources,
    bk: Bucket,
    sid: u64,
    a: SpriteRenderer,
    b: SpriteRenderer,
)
    requires
        before.spec_bucket(sid) == seq![a, b],
        a.spec_id() != b.spec_id(),
        after.spec_bucket(sid) == before.spec_bucket(sid).filter(
            |x: SpriteRenderer| x.spec_id() != a.spec_id(),
        ),
        res.spec_sprite(sid) matches Some(sr),
        bk.sprite_id == sid,
        bk.renderers@ == after.spec_bucket(sid),
    ensures
        after.spec_bucket(sid) == seq![b],
        spec_bucket_cmds(bk, res) == seq![
            DrawCmd::BindSpriteBuffers {
                vertex_buffer: res.spec_sprite(sid).unwrap().vertex_buffer,
                index_buffer: res.spec_index_buffer(),
            },
            DrawCmd::BindSpriteSet { set: res.spec_sprite(sid).unwrap().image_set },
        ] + spec_instance_cmds(b),
{
    reveal_with_fuel(Seq::<_>::filter, 3);
    reveal_with_fuel(spec_instances_cmds, 3);
    let keep = |x: SpriteRenderer| x.spec_id() != a.spec_id();
    let two = seq![a, b];
    assert(two.drop_last() =~= seq![a]);
    assert(seq![a].drop_last() =~= Seq::<SpriteRenderer>::empty());
    assert(seq![a].filter(keep) =~= Seq::<SpriteRenderer>::empty());
    assert(two.filter(keep) =~= seq![b]);
    assert(after.spec_bucket(sid) =~= seq![b]);
    assert(bk.renderers@.len() == 1);
    assert(bk.renderers@.drop_last() =~= Seq::<SpriteRenderer>::empty());
    assert(spec_instances_cmds(bk.renderers@) =~= Seq::<DrawCmd>::empty()
        + spec_instance_cmds(b));
    assert(spec_instances_cmds(bk.renderers@) =~= spec_instance_cmds(b));
    assert(spec_bucket_cmds(bk, res) =~= seq![
        DrawCmd::BindSpriteBuffers {
            vertex_buffer: res.spec_sprite(sid).unwrap().vertex_buffer,
            index_buffer: res.spec_index_buffer(),
        },
        DrawCmd::BindSpriteSet { set: res.spec_sprite(sid).unwrap().image_set },
    ] + spec_instance_cmds(b));
}

} // verus!
