//! The colour pass: one point per particle.
//!
//! The particle buffer is the vertex stream.  Before each draw the pass
//! uploads the camera's view-projection matrix as it stands in the context,
//! then clears the intermediate colour target to transparent black and draws.

use std::ops::Range;
use std::rc::Rc;
use vstd::prelude::*;

use crate::binding::{
    device_plan, group_plan, layout_of, lemma_group_push, lemma_layout_push, shapes_of, Binding,
    BindgroupBuilder, BindingKind, BindingResource, BindingSetView, BindingShape, SlotEntry, SlotType,
    TextureUse, Visibility,
};
use crate::buffers::UniformBuffer;
use crate::context::{PixelFormat, RenderContext};
use crate::error::{BuildError, BuildStage};
use crate::gpu::{
    color_value, format_of, format_value, group_request, layout_entries, render_request, shader_source,
    view_texture, GroupEntry, RenderCall,
};
use crate::particle::{particle_attributes, particle_layout, PARTICLE_BYTES};
use crate::pass::RenderStage;
use crate::pipelines::{
    fixed_defaults, group_layouts, render_asked, render_bind_steps, BoundRenderPipeline, RenderParts,
    RenderPipelineBuilder, RenderPipelineView, RenderPlan, Topology,
};
use crate::stream::{
    draw_job_calls, draw_steps, lemma_first_draw_job_kept, render_commands, ClearColor, Command, CommandStream,
    DrawJob, Step,
};
use crate::target::{Target, TargetView};
use crate::vertex::{StepMode, VertexLayoutView};

verus! {

/// The binding set of the particle shader: the view-projection matrix at
/// slot 0, for the vertex stage.
pub open spec fn color_layout() -> Seq<SlotEntry> {
    seq![SlotEntry { binding: 0, vis: Visibility::vertex_only(), ty: SlotType::Uniform }]
}

/// The binding set of the colour pass.  It offers no texture.
pub open spec fn color_set() -> BindingSetView {
    BindingSetView { layout: color_layout(), textures: seq![None] }
}

/// The vertex input of the particle shader: the particle record.
pub open spec fn particle_input() -> VertexLayoutView {
    VertexLayoutView { stride: PARTICLE_BYTES, step: StepMode::Vertex, attributes: particle_attributes() }
}

/// Draws the particles into the intermediate colour target.
pub struct ColorPass {
    pl_drawstars: BoundRenderPipeline,
    output_view: TargetView,
    vp_buf: UniformBuffer,
}

impl ColorPass {
    #[verifier::type_invariant]
    spec fn well_formed(&self) -> bool {
        &&& self.output_view.target() == Target::Color
        &&& self.vp_buf.label() == "VP Matrix"@
        &&& self.vp_buf.words() == 16
    }

    /// The pipeline of this pass with its binding set and vertex buffer.
    pub closed spec fn program(&self) -> BoundRenderPipeline {
        self.pl_drawstars
    }

    /// The pipeline of this pass.
    pub open spec fn pipeline(&self) -> RenderPipelineView {
        self.program()@
    }

    /// The view of the colour target that this pass draws to.
    pub closed spec fn target_view(&self) -> wgpu::TextureView {
        self.output_view.texture_view()
    }

    /// The uniform that holds the view-projection matrix.
    pub closed spec fn camera(&self) -> UniformBuffer {
        self.vp_buf
    }

    /// The calls that a draw makes on the device's pass: the pass is begun
    /// on the colour target and cleared to transparent black, the pipeline is
    /// bound, and the vertices are drawn.
    pub open spec fn calls(&self, verts: Range<u32>, instances: Range<u32>) -> Seq<RenderCall> {
        seq![RenderCall::Begin(self.target_view(), color_value(ClearColor::Transparent), true)]
            + self.program().bind_calls().push(
            RenderCall::Draw(verts.start, verts.end, instances.start, instances.end),
        )
    }

    /// Whether the device objects of this pass are what [`new`](Self::new)
    /// asks the device for: a view of the context's colour target to draw
    /// to, the particle buffer `stars` as the only vertex buffer, one binding
    /// set that puts the camera uniform at slot 0, and a pipeline for
    /// [`PixelFormat::Rgba8Unorm`] whose two stages are served by the
    /// shader compiled from `shader`.
    pub open spec fn wired(&self, ctx: &RenderContext, stars: wgpu::Buffer, shader: Seq<char>) -> bool {
        let sets = self.program().bound_sets();
        let request = render_request(self.program().handle());
        &&& view_texture(self.target_view()) == ctx.color_target.handle()
        &&& self.program().vertex_buffers() == seq![stars]
        &&& sets.len() == 1
        &&& layout_entries(sets[0].bind_group_layout()) == device_plan(color_layout()).to_multiset()
        &&& group_request(sets[0].bind_group()) == (
            sets[0].bind_group_layout(),
            seq![GroupEntry::Buffer(0, self.camera().handle())],
        )
        &&& shader_source(request.vertex) == ("Draw Stars"@, shader)
        &&& shader_source(request.fragment) == ("Draw Stars"@, shader)
        &&& render_asked(
            RenderPlan {
                label: "Draw Stars"@,
                topology: Topology::PointList,
                groups: seq![color_set()],
                vertex_inputs: seq![particle_input()],
                has_vertex_shader: true,
                has_fragment_shader: true,
                failure: None,
            },
            RenderParts {
                sets,
                vertex_shader: Some(request.vertex),
                fragment_shader: Some(request.fragment),
                vertex_buffers: seq![stars],
            },
            format_value(PixelFormat::Rgba8Unorm),
            request,
        )
    }

    /// Builds the pass around the particle buffer `stars`; `shader` is the
    /// WGSL source of the particle shader, vertex and fragment stage.
    ///
    /// The device alone decides whether the pass can be built.
    pub fn new(ctx: &RenderContext, stars: Rc<wgpu::Buffer>, shader: &str) -> (r: Result<ColorPass, BuildError>)
        ensures
            r matches Ok(pass) ==> {
                &&& pass.camera().initial() == ctx.view_projection@
                &&& pass.pipeline() == (RenderPipelineView {
                    label: "Draw Stars"@,
                    topology: Topology::PointList,
                    fixed: fixed_defaults(),
                    format: format_value(PixelFormat::Rgba8Unorm),
                    groups: seq![color_set()],
                    vertex_inputs: seq![particle_input()],
                })
                &&& pass.wired(ctx, *stars, shader@)
            },
            r matches Err(e) ==> e.stage == BuildStage::Texture || e.stage == BuildStage::Buffer || e.stage.of_pipeline(),
    {
        let output_view = match ctx.color_view() {
            Ok(view) => view,
            Err(e) => {
                return Err(e);
            },
        };
        let vp_buf = match UniformBuffer::new(
            &ctx.gpu,
            "VP Matrix",
            ctx.view_projection.as_slice(),
        ) {
            Ok(buffer) => buffer,
            Err(e) => {
                return Err(e);
            },
        };
        let camera = Binding { vis: Visibility::vertex(), res: BindingResource::Uniform(vp_buf.buffer()) };
        let ghost only = camera;
        let bindings = BindgroupBuilder::new().resource(camera);
        let ghost bound = bindings.bindings();
        proof {
            lemma_layout_push(Seq::empty(), only.shape());
            lemma_group_push(Seq::empty(), only);
            assert(bound =~= Seq::empty().push(only));
            assert(shapes_of(Seq::<Binding>::empty()) =~= Seq::empty());
            assert(layout_of(bindings.shapes()) =~= color_layout());
            assert(bindings.textures() =~= seq![None::<TextureUse>]);
            assert(group_plan(bound) =~= seq![GroupEntry::Buffer(0, vp_buf.handle())]);
        }
        let layout = particle_layout();
        let ghost input = layout@;
        let ghost held = stars;
        let started = RenderPipelineBuilder::new();
        let with_vertex = started.vert(ctx.gpu.device(), "Draw Stars", shader);
        let with_fragment = with_vertex.frag(ctx.gpu.device(), "Draw Stars", shader);
        let with_buffer = with_fragment.vertex_buffer(layout, stars);
        let with_set = with_buffer.bind_group(ctx.gpu.device(), bindings);
        let named = with_set.topo(Topology::PointList).name("Draw Stars");
        let ghost plan = named@;
        let ghost parts = named.parts();
        let format = format_of(PixelFormat::Rgba8Unorm);
        match named.build(ctx.gpu.device(), &format) {
            Err(e) => Err(e),
            Ok(pl_drawstars) => {
                proof {
                    assert(input == particle_input());
                    assert(pl_drawstars@.groups =~= seq![color_set()]);
                    assert(pl_drawstars@.vertex_inputs =~= seq![particle_input()]);
                    assert(parts.sets =~= seq![parts.sets.last()]);
                    assert(parts.vertex_buffers =~= seq![*held]);
                    assert(plan.groups =~= seq![color_set()]);
                    assert(plan.vertex_inputs =~= seq![particle_input()]);
                }
                Ok(ColorPass { pl_drawstars, output_view, vp_buf })
            },
        }
    }
}

impl RenderStage for ColorPass {
    /// The colour pass can always draw.
    open spec fn ready(&self, ctx: &RenderContext) -> bool {
        true
    }

    /// The upload of the context's view-projection matrix, then one render
    /// pass that clears the colour target to transparent black, binds the
    /// pipeline and draws, with the commands that the device's pass holds
    /// after those calls.
    open spec fn recorded(&self, ctx: &RenderContext, verts: Range<u32>, instances: Range<u32>) -> Seq<Command> {
        seq![
            Command::Write { buffer: "VP Matrix"@, words: ctx.view_projection@ },
            Command::Render {
                label: "Color Render Pass"@,
                target: Target::Color,
                clear: ClearColor::Transparent,
                steps: render_bind_steps(self.pipeline()).push(
                    Step::Draw {
                        first_vertex: verts.start,
                        end_vertex: verts.end,
                        first_instance: instances.start,
                        end_instance: instances.end,
                    },
                ),
                commands: render_commands(self.calls(verts, instances)),
            },
        ]
    }

    fn draw(&self, ctx: &RenderContext, stream: &mut CommandStream<'_>, verts: Range<u32>, instances: Range<u32>) {
        proof {
            use_type_invariant(self);
        }
        stream.write(&self.vp_buf, ctx.view_projection.as_slice());
        let mut jobs: Vec<DrawJob> = Vec::new();
        jobs.push(
            DrawJob {
                pipeline: &self.pl_drawstars,
                vertices: (verts.start, verts.end),
                instances: (instances.start, instances.end),
            },
        );
        proof {
            reveal_with_fuel(draw_steps, 2);
            assert(jobs@.drop_last() =~= Seq::empty());
            reveal_with_fuel(draw_job_calls, 2);
            assert(draw_steps(jobs@) =~= jobs@[0].steps());
            assert(draw_job_calls(jobs@) =~= jobs@[0].calls());
        }
        assert(seq![RenderCall::Begin(self.target_view(), color_value(ClearColor::Transparent), true)]
            + draw_job_calls(jobs@) =~= self.calls(verts, instances));
        stream.render_pass("Color Render Pass", &self.output_view, ClearColor::Transparent, &jobs);
        assert(final(stream).trace() =~= old(stream).trace() + self.recorded(ctx, verts, instances));
    }
}

/// For a pass as [`ColorPass::new`] builds it around the particle buffer
/// `stars`, the device's pass holds one command for each call, and the
/// calls are exactly: the pass begins on the colour target, cleared to
/// transparent black; then the pipeline, its bind group at index 0, the
/// particle buffer at slot 0, and the draw.
pub proof fn lemma_color_commands(
    pass: &ColorPass,
    ctx: &RenderContext,
    stars: &wgpu::Buffer,
    shader: Seq<char>,
    verts: Range<u32>,
    instances: Range<u32>,
)
    requires
        pass.wired(ctx, *stars, shader),
    ensures
        render_commands(pass.calls(verts, instances)) == pass.calls(verts, instances),
        pass.calls(verts, instances) == seq![
            RenderCall::Begin(pass.target_view(), color_value(ClearColor::Transparent), true),
            RenderCall::Pipeline(pass.program().handle()),
            RenderCall::BindGroup(0, pass.program().bound_sets()[0].bind_group()),
            RenderCall::VertexBuffer(0, *stars),
            RenderCall::Draw(verts.start, verts.end, instances.start, instances.end),
        ],
{
    let program = pass.program();
    let job = DrawJob {
        pipeline: &program,
        vertices: (verts.start, verts.end),
        instances: (instances.start, instances.end),
    };
    let begin = RenderCall::Begin(pass.target_view(), color_value(ClearColor::Transparent), true);
    lemma_first_draw_job_kept(begin, job);
    assert(seq![begin] + job.calls() =~= pass.calls(verts, instances));
    assert(pass.calls(verts, instances) =~= seq![
        begin,
        RenderCall::Pipeline(pass.program().handle()),
        RenderCall::BindGroup(0, pass.program().bound_sets()[0].bind_group()),
        RenderCall::VertexBuffer(0, *stars),
        RenderCall::Draw(verts.start, verts.end, instances.start, instances.end),
    ]);
}

/// Uploading the camera is idempotent: what the colour pass writes into the
/// view-projection uniform is the context's matrix word for word, so two
/// draws with the same camera state write the same contents, whatever else
/// differs between them.
pub proof fn lemma_projection_upload_repeats(
    pass: &ColorPass,
    first: &RenderContext,
    second: &RenderContext,
    verts: Range<u32>,
    instances: Range<u32>,
)
    requires
        first.view_projection == second.view_projection,
    ensures
        pass.recorded(first, verts, instances)[0] == pass.recorded(second, verts, instances)[0],
        pass.recorded(first, verts, instances)[0] == (Command::Write {
            buffer: "VP Matrix"@,
            words: first.view_projection@,
        }),
        pass.recorded(first, verts, instances) == pass.recorded(second, verts, instances),
{
}

} // verus!
