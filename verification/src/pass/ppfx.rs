//! The bloom pass: a separable blur in two steps.
//!
//! The horizontal step samples the colour target and stores into the second
//! bloom texture; the vertical step samples that texture and stores back into
//! the colour target, where the result is left.  Both run in one compute
//! pass, horizontal first: the vertical step reads what the horizontal step
//! wrote, and the order of the commands is all that orders them.

use vstd::prelude::*;

use crate::binding::{
    device_plan, group_plan, layout_of, lemma_group_push, lemma_layout_push, shapes_of, Binding,
    BindgroupBuilder, BindingKind, BindingResource, BindingSetView, BindingShape, SlotEntry, SlotType,
    StorageAccess, TextureUse, Visibility,
};
use crate::context::{AddressMode, FilterMode, PixelFormat, RenderContext, TextureSampler};
use crate::error::{BuildError, BuildStage};
use crate::gpu::{
    compute_request, format_of, format_value, group_request, layout_entries, pipeline_sets, sampler_request,
    sampling, shader_source, view_texture, ComputeCall, ComputeLog, GroupEntry,
};
use crate::pass::ComputeStage;
use crate::pipelines::{
    compute_bind_steps, group_layouts, BoundComputePipeline, ComputePipelineBuilder, ComputePipelineView,
    COMPUTE_ENTRY,
};
use crate::stream::{compute_commands, compute_job_calls, compute_steps, Command, CommandStream, ComputeJob, Step};
use crate::target::{Target, TargetView};

verus! {

/// The side of the square of pixels that one bloom workgroup blurs.
pub const BLOOM_TILE: u32 = 16;

/// The number of bloom workgroups needed to cover `pixels` pixels in one
/// direction: `pixels / 16`, rounded up.
pub open spec fn tiles(pixels: nat) -> nat {
    (pixels + 15) / 16
}

/// The number of bloom workgroups needed to cover `pixels` pixels in one
/// direction.
pub fn tile_count(pixels: u32) -> (n: u32)
    ensures
        n == tiles(pixels as nat),
{
    let whole: u32 = pixels / BLOOM_TILE;
    if pixels % BLOOM_TILE == 0 {
        whole
    } else {
        whole + 1
    }
}

/// The workgroups cover every pixel, and no workgroup is wholly outside.
pub proof fn lemma_tiles_cover(pixels: nat)
    ensures
        pixels <= tiles(pixels) * 16 < pixels + 16,
{
}

/// The format in which the blurs store: that of the internal render
/// targets.
pub open spec fn bloom_format() -> wgpu::TextureFormat {
    format_value(PixelFormat::Rgba8Unorm)
}

/// The binding set of both blur shaders: the source texture at slot 0, its
/// sampler at slot 1, the destination at slot 2 as a write-only storage
/// texture of `format`.
pub open spec fn bloom_layout(format: wgpu::TextureFormat) -> Seq<SlotEntry> {
    seq![
        SlotEntry { binding: 0, vis: Visibility::compute_only(), ty: SlotType::Texture },
        SlotEntry { binding: 1, vis: Visibility::compute_only(), ty: SlotType::Sampler },
        SlotEntry {
            binding: 2,
            vis: Visibility::compute_only(),
            ty: SlotType::StorageTexture { format, access: StorageAccess::WriteOnly },
        },
    ]
}

/// The binding set of a blur step that samples `source` and stores into
/// `destination`.
pub open spec fn bloom_set(format: wgpu::TextureFormat, source: Target, destination: Target) -> BindingSetView {
    BindingSetView {
        layout: bloom_layout(format),
        textures: seq![Some(TextureUse::Sampled(source)), Some(TextureUse::Storage(destination))],
    }
}

/// The bindings of a blur shader have the bloom layout.
proof fn lemma_bloom_layout(shapes: Seq<BindingShape>, format: wgpu::TextureFormat)
    requires
        shapes == seq![
            BindingShape { vis: Visibility::compute_only(), kind: BindingKind::Texture },
            BindingShape {
                vis: Visibility::compute_only(),
                kind: BindingKind::TextureStore { format, access: StorageAccess::WriteOnly },
            },
        ],
    ensures
        layout_of(shapes) == bloom_layout(format),
        crate::binding::slots_needed(shapes) == 3,
{
    let first = shapes[0];
    let second = shapes[1];
    lemma_layout_push(Seq::empty(), first);
    lemma_layout_push(Seq::empty().push(first), second);
    assert(shapes =~= Seq::empty().push(first).push(second));
    assert(layout_of(shapes) =~= bloom_layout(format));
}

/// Blurs the colour target in place, by way of the second bloom texture.
pub struct PPFXPass {
    bloom_x: BoundComputePipeline,
    bloom_y: BoundComputePipeline,
    /// The view of the colour target.
    ping: TargetView,
    /// The view of the second bloom texture.
    pong: TargetView,
    sampler: TextureSampler,
}

impl PPFXPass {
    /// The pipeline of the horizontal blur with its binding set.
    pub closed spec fn across(&self) -> BoundComputePipeline {
        self.bloom_x
    }

    /// The pipeline of the vertical blur with its binding set.
    pub closed spec fn down(&self) -> BoundComputePipeline {
        self.bloom_y
    }

    /// The pipeline of the horizontal blur.
    pub open spec fn horizontal(&self) -> ComputePipelineView {
        self.across()@
    }

    /// The pipeline of the vertical blur.
    pub open spec fn vertical(&self) -> ComputePipelineView {
        self.down()@
    }

    /// The calls that [`exec`](ComputeStage::exec) makes on the device's
    /// pass: the horizontal blur is bound and dispatched, then the vertical.
    pub open spec fn calls(&self, ctx: &RenderContext) -> Seq<ComputeCall> {
        let x = tiles(ctx.internal_target_size.0 as nat) as u32;
        let y = tiles(ctx.internal_target_size.1 as nat) as u32;
        self.across().bind_calls().push(ComputeCall::Dispatch(x, y, 1)) + self.down().bind_calls().push(
            ComputeCall::Dispatch(x, y, 1),
        )
    }

    /// The dispatch of either blur: one workgroup for every tile of the
    /// internal render target.
    pub open spec fn grid(ctx: &RenderContext) -> Step {
        Step::Dispatch {
            x: tiles(ctx.internal_target_size.0 as nat) as u32,
            y: tiles(ctx.internal_target_size.1 as nat) as u32,
            z: 1,
        }
    }

    /// The steps of the one compute pass that [`exec`](ComputeStage::exec)
    /// records: bind and dispatch the horizontal blur, then bind and dispatch
    /// the vertical blur.
    pub open spec fn steps(&self, ctx: &RenderContext) -> Seq<Step> {
        compute_bind_steps(self.horizontal()).push(Self::grid(ctx)) + compute_bind_steps(self.vertical()).push(
            Self::grid(ctx),
        )
    }

    /// The view of the colour target that the blurs read and write.
    pub closed spec fn ping(&self) -> TargetView {
        self.ping
    }

    /// The view of the second bloom texture that the blurs write and read.
    pub closed spec fn pong(&self) -> TargetView {
        self.pong
    }

    /// The sampler that reads the source of either blur.
    pub closed spec fn sampler(&self) -> TextureSampler {
        self.sampler
    }

    /// Whether `pipeline` is a blur as [`new`](Self::new) asks the device for
    /// it: one binding set that puts the view `source` at slot 0, the sampler
    /// at slot 1 and the view `destination` at slot 2, and a pipeline of that
    /// set and of the shader compiled from `shader`.
    pub open spec fn blur(
        &self,
        pipeline: BoundComputePipeline,
        format: wgpu::TextureFormat,
        source: TargetView,
        destination: TargetView,
        label: Seq<char>,
        shader: Seq<char>,
    ) -> bool {
        let sets = pipeline.bound_sets();
        let request = compute_request(pipeline.handle());
        &&& sets.len() == 1
        &&& layout_entries(sets[0].bind_group_layout()) == device_plan(bloom_layout(format)).to_multiset()
        &&& group_request(sets[0].bind_group()) == (
            sets[0].bind_group_layout(),
            seq![
                GroupEntry::View(0, source.texture_view()),
                GroupEntry::Sampler(1, self.sampler().handle()),
                GroupEntry::View(2, destination.texture_view()),
            ],
        )
        &&& pipeline_sets(request.layout) == seq![sets[0].bind_group_layout()]
        &&& shader_source(request.module) == (label, shader)
        &&& request.entry == COMPUTE_ENTRY@
    }

    /// Whether the device objects of this pass are what [`new`](Self::new)
    /// asks the device for: views of the context's two textures, a sampler
    /// that clamps to the edge and takes the nearest texel, a horizontal blur
    /// from the colour target to the second texture, and a vertical blur
    /// back.
    pub open spec fn wired(&self, ctx: &RenderContext, horizontal: Seq<char>, vertical: Seq<char>) -> bool {
        &&& view_texture(self.ping().texture_view()) == ctx.color_target.handle()
        &&& self.ping().target() == Target::Color
        &&& view_texture(self.pong().texture_view()) == ctx.pingpong.handle()
        &&& self.pong().target() == Target::PingPong
        &&& self.sampler().address() == AddressMode::ClampToEdge
        &&& self.sampler().filter() == FilterMode::Nearest
        &&& sampler_request(self.sampler().handle()) == sampling(AddressMode::ClampToEdge, FilterMode::Nearest)
        &&& self.blur(self.across(), bloom_format(), self.ping(), self.pong(), "Bloom X"@, horizontal)
        &&& compute_request(self.across().handle()).label == "Bloom X Pipeline"@
        &&& self.blur(self.down(), bloom_format(), self.pong(), self.ping(), "Bloom Y"@, vertical)
        &&& compute_request(self.down().handle()).label == "Bloom Y Pipeline"@
    }

    /// Builds both blur pipelines; the arguments are the WGSL sources of the
    /// horizontal and the vertical blur shader.
    ///
    /// The device alone decides whether the pass can be built.
    pub fn new(ctx: &RenderContext, horizontal: &str, vertical: &str) -> (r: Result<PPFXPass, BuildError>)
        ensures
            r matches Ok(pass) ==> {
                &&& pass.horizontal() == (ComputePipelineView {
                    label: "Bloom X Pipeline"@,
                    groups: seq![bloom_set(bloom_format(), Target::Color, Target::PingPong)],
                })
                &&& pass.vertical() == (ComputePipelineView {
                    label: "Bloom Y Pipeline"@,
                    groups: seq![bloom_set(bloom_format(), Target::PingPong, Target::Color)],
                })
                &&& pass.wired(ctx, horizontal@, vertical@)
            },
            r matches Err(e) ==> e.stage == BuildStage::Texture || e.stage == BuildStage::Sampler || e.stage.of_pipeline(),
    {
        let format = format_of(PixelFormat::Rgba8Unorm);
        let ping = match ctx.color_view() {
            Ok(view) => view,
            Err(e) => {
                return Err(e);
            },
        };
        let pong = match ctx.pingpong_view() {
            Ok(view) => view,
            Err(e) => {
                return Err(e);
            },
        };
        let sampler = match ctx.nearest_sampler() {
            Ok(sampler) => sampler,
            Err(e) => {
                return Err(e);
            },
        };
        let from_ping = Binding { vis: Visibility::compute(), res: BindingResource::Texture(&ping, sampler.sampler()) };
        let to_pong = Binding {
            vis: Visibility::compute(),
            res: BindingResource::TextureStore(format, &pong, StorageAccess::WriteOnly),
        };
        let from_pong = Binding { vis: Visibility::compute(), res: BindingResource::Texture(&pong, sampler.sampler()) };
        let to_ping = Binding {
            vis: Visibility::compute(),
            res: BindingResource::TextureStore(format, &ping, StorageAccess::WriteOnly),
        };
        let ghost x_first = from_ping;
        let ghost x_second = to_pong;
        let ghost y_first = from_pong;
        let ghost y_second = to_ping;
        let across = BindgroupBuilder::new().resource(from_ping).resource(to_pong);
        let down = BindgroupBuilder::new().resource(from_pong).resource(to_ping);
        proof {
            assert(across.shapes() =~= seq![
                BindingShape { vis: Visibility::compute_only(), kind: BindingKind::Texture },
                BindingShape {
                    vis: Visibility::compute_only(),
                    kind: BindingKind::TextureStore { format: bloom_format(), access: StorageAccess::WriteOnly },
                },
            ]);
            assert(down.shapes() =~= across.shapes());
            lemma_bloom_layout(across.shapes(), bloom_format());
            assert(across.textures() =~= seq![
                Some(TextureUse::Sampled(Target::Color)),
                Some(TextureUse::Storage(Target::PingPong)),
            ]);
            assert(down.textures() =~= seq![
                Some(TextureUse::Sampled(Target::PingPong)),
                Some(TextureUse::Storage(Target::Color)),
            ]);
            assert(shapes_of(Seq::<Binding>::empty()) =~= Seq::empty());
            lemma_layout_push(Seq::empty(), x_first.shape());
            lemma_group_push(Seq::empty(), x_first);
            lemma_group_push(Seq::empty().push(x_first), x_second);
            assert(across.bindings() =~= Seq::empty().push(x_first).push(x_second));
            assert(group_plan(across.bindings()) =~= seq![
                GroupEntry::View(0, ping.texture_view()),
                GroupEntry::Sampler(1, sampler.handle()),
                GroupEntry::View(2, pong.texture_view()),
            ]);
            lemma_layout_push(Seq::empty(), y_first.shape());
            lemma_group_push(Seq::empty(), y_first);
            lemma_group_push(Seq::empty().push(y_first), y_second);
            assert(down.bindings() =~= Seq::empty().push(y_first).push(y_second));
            assert(group_plan(down.bindings()) =~= seq![
                GroupEntry::View(0, pong.texture_view()),
                GroupEntry::Sampler(1, sampler.handle()),
                GroupEntry::View(2, ping.texture_view()),
            ]);
        }
        let x_started = ComputePipelineBuilder::new(ctx.gpu.device(), "Bloom X", horizontal);
        let x_named = x_started.bind_group(ctx.gpu.device(), across).name("Bloom X Pipeline");
        let ghost x_parts = x_named.parts();
        let bloom_x = match x_named.build(ctx.gpu.device()) {
            Ok(pipeline) => pipeline,
            Err(e) => {
                return Err(e);
            },
        };
        let y_started = ComputePipelineBuilder::new(ctx.gpu.device(), "Bloom Y", vertical);
        let y_named = y_started.bind_group(ctx.gpu.device(), down).name("Bloom Y Pipeline");
        let ghost y_parts = y_named.parts();
        let bloom_y = match y_named.build(ctx.gpu.device()) {
            Ok(pipeline) => pipeline,
            Err(e) => {
                return Err(e);
            },
        };
        proof {
            assert(bloom_x@.groups =~= seq![bloom_set(bloom_format(), Target::Color, Target::PingPong)]);
            assert(bloom_y@.groups =~= seq![bloom_set(bloom_format(), Target::PingPong, Target::Color)]);
            assert(x_parts.sets =~= seq![x_parts.sets.last()]);
            assert(y_parts.sets =~= seq![y_parts.sets.last()]);
            assert(group_layouts(x_parts.sets) =~= seq![x_parts.sets[0].bind_group_layout()]);
            assert(group_layouts(y_parts.sets) =~= seq![y_parts.sets[0].bind_group_layout()]);
        }
        Ok(PPFXPass { bloom_x, bloom_y, ping, pong, sampler })
    }
}

/// The vertical blur is never dispatched before the horizontal blur.
///
/// In what the bloom pass records there are exactly two dispatches.  The
/// first follows the binding of the horizontal pipeline, and the vertical
/// pipeline is bound only after it; the second is the last step.
pub proof fn lemma_horizontal_before_vertical(pass: &PPFXPass, ctx: &RenderContext)
    ensures
        ({
            let steps = pass.steps(ctx);
            let first = compute_bind_steps(pass.horizontal()).len() as int;
            let second = steps.len() - 1;
            &&& 0 < first < first + 1 < second
            &&& steps[0] == (Step::SetPipeline { name: pass.horizontal().label })
            &&& steps[first] == PPFXPass::grid(ctx)
            &&& steps[first + 1] == (Step::SetPipeline { name: pass.vertical().label })
            &&& steps[second] == PPFXPass::grid(ctx)
            &&& forall|k: int| 0 <= k < steps.len() && steps[k] is Dispatch ==> k == first || k == second
            &&& forall|k: int|
                0 <= k < steps.len() && steps[k] == (Step::SetPipeline { name: pass.vertical().label }) && pass.vertical().label
                    != pass.horizontal().label ==> first < k
        }),
{
    let across = compute_bind_steps(pass.horizontal());
    let down = compute_bind_steps(pass.vertical());
    let steps = pass.steps(ctx);
    let first = across.len() as int;
    assert(steps.len() == across.len() + down.len() + 2);
    assert forall|k: int| 0 <= k < steps.len() && steps[k] is Dispatch implies k == first || k == steps.len() - 1 by {
        if k < first {
            assert(steps[k] == across[k]);
        } else if first < k < steps.len() - 1 {
            assert(steps[k] == down[k - first - 1]);
        }
    }
    assert forall|k: int|
        0 <= k < steps.len() && steps[k] == (Step::SetPipeline { name: pass.vertical().label }) && pass.vertical().label
            != pass.horizontal().label implies first < k by {
        if k < first {
            assert(steps[k] == across[k]);
        }
    }
}

/// The blur goes from the colour target to the second bloom texture and
/// back: for a pass as [`PPFXPass::new`] builds it, the recorded steps are
/// exactly the horizontal blur reading the colour target and writing the
/// second texture, then the vertical blur reading the second texture and
/// writing the colour target, where the result is left.
pub proof fn lemma_ping_pong(pass: &PPFXPass, ctx: &RenderContext)
    requires
        pass.horizontal() == (ComputePipelineView {
            label: "Bloom X Pipeline"@,
            groups: seq![bloom_set(bloom_format(), Target::Color, Target::PingPong)],
        }),
        pass.vertical() == (ComputePipelineView {
            label: "Bloom Y Pipeline"@,
            groups: seq![bloom_set(bloom_format(), Target::PingPong, Target::Color)],
        }),
    ensures
        pass.steps(ctx) == seq![
            Step::SetPipeline { name: "Bloom X Pipeline"@ },
            Step::SetBindGroup { index: 0, set: bloom_set(bloom_format(), Target::Color, Target::PingPong) },
            PPFXPass::grid(ctx),
            Step::SetPipeline { name: "Bloom Y Pipeline"@ },
            Step::SetBindGroup { index: 0, set: bloom_set(bloom_format(), Target::PingPong, Target::Color) },
            PPFXPass::grid(ctx),
        ],
{
    let across = compute_bind_steps(pass.horizontal());
    let down = compute_bind_steps(pass.vertical());
    assert(across =~= seq![
        Step::SetPipeline { name: "Bloom X Pipeline"@ },
        Step::SetBindGroup { index: 0, set: bloom_set(bloom_format(), Target::Color, Target::PingPong) },
    ]);
    assert(down =~= seq![
        Step::SetPipeline { name: "Bloom Y Pipeline"@ },
        Step::SetBindGroup { index: 0, set: bloom_set(bloom_format(), Target::PingPong, Target::Color) },
    ]);
    assert(pass.steps(ctx) =~= seq![
        Step::SetPipeline { name: "Bloom X Pipeline"@ },
        Step::SetBindGroup { index: 0, set: bloom_set(bloom_format(), Target::Color, Target::PingPong) },
        PPFXPass::grid(ctx),
        Step::SetPipeline { name: "Bloom Y Pipeline"@ },
        Step::SetBindGroup { index: 0, set: bloom_set(bloom_format(), Target::PingPong, Target::Color) },
        PPFXPass::grid(ctx),
    ]);
}

/// For a pass as [`PPFXPass::new`] builds it on a context whose two render
/// targets are two textures, the device's pass holds one command for each
/// call, six in all: the second blur has another pipeline than the first,
/// and another bind group, since it reads where the first writes.
pub proof fn lemma_bloom_commands(pass: &PPFXPass, ctx: &RenderContext, horizontal: Seq<char>, vertical: Seq<char>)
    requires
        pass.wired(ctx, horizontal, vertical),
        ctx.color_target.handle() != ctx.pingpong.handle(),
    ensures
        pass.across().handle() != pass.down().handle(),
        pass.across().bound_sets()[0].bind_group() != pass.down().bound_sets()[0].bind_group(),
        compute_commands(pass.calls(ctx)) == pass.calls(ctx),
        pass.calls(ctx) == seq![
            ComputeCall::Pipeline(pass.across().handle()),
            ComputeCall::BindGroup(0, pass.across().bound_sets()[0].bind_group()),
            ComputeCall::Dispatch(
                tiles(ctx.internal_target_size.0 as nat) as u32,
                tiles(ctx.internal_target_size.1 as nat) as u32,
                1,
            ),
            ComputeCall::Pipeline(pass.down().handle()),
            ComputeCall::BindGroup(0, pass.down().bound_sets()[0].bind_group()),
            ComputeCall::Dispatch(
                tiles(ctx.internal_target_size.0 as nat) as u32,
                tiles(ctx.internal_target_size.1 as nat) as u32,
                1,
            ),
        ],
{
    reveal_strlit("Bloom X Pipeline");
    reveal_strlit("Bloom Y Pipeline");
    assert("Bloom X Pipeline"@[6] != "Bloom Y Pipeline"@[6]);
    assert(compute_request(pass.across().handle()).label != compute_request(pass.down().handle()).label);
    assert(pass.across().handle() != pass.down().handle());
    assert(pass.ping().texture_view() != pass.pong().texture_view());
    assert(group_request(pass.across().bound_sets()[0].bind_group()).1[0] != group_request(
        pass.down().bound_sets()[0].bind_group(),
    ).1[0]);
    let calls = pass.calls(ctx);
    let whole = seq![
        ComputeCall::Pipeline(pass.across().handle()),
        ComputeCall::BindGroup(0, pass.across().bound_sets()[0].bind_group()),
        ComputeCall::Dispatch(
            tiles(ctx.internal_target_size.0 as nat) as u32,
            tiles(ctx.internal_target_size.1 as nat) as u32,
            1,
        ),
        ComputeCall::Pipeline(pass.down().handle()),
        ComputeCall::BindGroup(0, pass.down().bound_sets()[0].bind_group()),
        ComputeCall::Dispatch(
            tiles(ctx.internal_target_size.0 as nat) as u32,
            tiles(ctx.internal_target_size.1 as nat) as u32,
            1,
        ),
    ];
    assert(calls =~= whole);
    let fresh = ComputeLog::fresh();
    assert(whole.take(0) =~= Seq::empty());
    assert(fresh.told_all(whole.take(0)) == fresh);
    assert(whole.take(1).drop_last() =~= whole.take(0));
    assert(fresh.told_all(whole.take(1)).commands =~= whole.take(1));
    assert(whole.take(2).drop_last() =~= whole.take(1));
    assert(fresh.told_all(whole.take(2)).commands =~= whole.take(2));
    assert(whole.take(3).drop_last() =~= whole.take(2));
    assert(fresh.told_all(whole.take(3)).commands =~= whole.take(3));
    assert(whole.take(4).drop_last() =~= whole.take(3));
    assert(fresh.told_all(whole.take(4)).commands =~= whole.take(4));
    assert(whole.take(5).drop_last() =~= whole.take(4));
    assert(fresh.told_all(whole.take(5)).commands =~= whole.take(5));
    assert(whole.take(6).drop_last() =~= whole.take(5));
    assert(fresh.told_all(whole.take(6)).commands =~= whole.take(6));
    assert(whole.take(6) =~= whole);
}

impl ComputeStage for PPFXPass {
    /// One compute pass that runs the horizontal blur and then the vertical
    /// blur over the whole internal render target, with the commands that
    /// the device's pass holds after those calls.
    open spec fn recorded(&self, ctx: &RenderContext) -> Seq<Command> {
        seq![
            Command::Compute {
                label: "Bloom Compute Pass"@,
                steps: self.steps(ctx),
                commands: compute_commands(self.calls(ctx)),
            },
        ]
    }

    fn exec(&self, ctx: &RenderContext, stream: &mut CommandStream<'_>) {
        let grid = (tile_count(ctx.internal_target_size.0), tile_count(ctx.internal_target_size.1), 1u32);
        let mut jobs: Vec<ComputeJob> = Vec::new();
        jobs.push(ComputeJob { pipeline: &self.bloom_x, grid });
        jobs.push(ComputeJob { pipeline: &self.bloom_y, grid });
        proof {
            reveal_with_fuel(compute_steps, 3);
            assert(jobs@.drop_last().drop_last() =~= Seq::empty());
            reveal_with_fuel(compute_job_calls, 3);
            assert(compute_steps(jobs@) =~= self.steps(ctx));
            assert(compute_job_calls(jobs@) =~= self.calls(ctx));
        }
        stream.compute_pass("Bloom Compute Pass", &jobs);
        assert(final(stream).trace() =~= old(stream).trace() + self.recorded(ctx));
    }
}

} // verus!
