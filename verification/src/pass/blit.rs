//! The blit pass: the post-processed image goes to the screen.
//!
//! The pass draws two triangles that cover the presented image; the fragment
//! shader samples the colour target, which has a fixed size, and scales it to
//! the window.  For that it is told both sizes, as single-precision numbers,
//! before every draw.

use std::ops::Range;
use vstd::prelude::*;

use crate::binding::{
    device_plan, group_plan, layout_of, lemma_group_push, lemma_layout_push, shapes_of, Binding,
    BindgroupBuilder, BindingKind, BindingResource, BindingSetView, BindingShape, SlotEntry, SlotType,
    TextureUse, Visibility,
};
use crate::buffers::UniformBuffer;
use crate::context::{AddressMode, FilterMode, RenderContext, TextureSampler};
use crate::error::{BuildError, BuildStage};
use crate::gpu::{
    buffer_request, color_value, group_request, layout_entries, render_request, sampler_request, sampling,
    shader_source, view_texture, GroupEntry, RenderCall,
};
use crate::ieee::{single_bits, single_of};
use crate::pass::RenderStage;
use crate::pipelines::{
    fixed_defaults, group_layouts, render_asked, render_bind_steps, BoundRenderPipeline, RenderParts,
    RenderPipelineBuilder, RenderPipelineView, RenderPlan, Topology, DEFAULT_SHADER,
};
use crate::stream::{
    draw_job_calls, draw_steps, lemma_first_draw_job_kept, render_commands, ClearColor, Command, CommandStream,
    DrawJob, Step,
};
use crate::target::{Target, TargetView};

verus! {

/// The number of vertices of the two triangles that cover the screen.
pub const SCREEN_VERTICES: u32 = 6;

/// The binding set of the blit shader, all for the fragment stage: the
/// window size at slot 0, the size of the internal render target at slot 1,
/// the post-processed image at slot 2 and its sampler at slot 3.
pub open spec fn blit_layout() -> Seq<SlotEntry> {
    seq![
        SlotEntry { binding: 0, vis: Visibility::fragment_only(), ty: SlotType::Uniform },
        SlotEntry { binding: 1, vis: Visibility::fragment_only(), ty: SlotType::Uniform },
        SlotEntry { binding: 2, vis: Visibility::fragment_only(), ty: SlotType::Texture },
        SlotEntry { binding: 3, vis: Visibility::fragment_only(), ty: SlotType::Sampler },
    ]
}

/// The binding set of the blit pass: the image it samples is the colour
/// target, where the bloom leaves its result.
pub open spec fn blit_set() -> BindingSetView {
    BindingSetView {
        layout: blit_layout(),
        textures: seq![None, None, Some(TextureUse::Sampled(Target::Color))],
    }
}

/// A size as the two words the blit shader reads: width, then height, each
/// the bit pattern of the nearest single-precision number.
pub open spec fn resolution_words(size: (u32, u32)) -> Seq<u32> {
    seq![single_of(size.0 as nat) as u32, single_of(size.1 as nat) as u32]
}

/// A size as the two words the blit shader reads.
pub fn resolution(size: (u32, u32)) -> (words: Vec<u32>)
    ensures
        words@ == resolution_words(size),
{
    let mut words: Vec<u32> = Vec::new();
    words.push(single_bits(size.0));
    words.push(single_bits(size.1));
    assert(words@ =~= resolution_words(size));
    words
}

/// Copies the post-processed image to the image that is presented.
pub struct BlitPass {
    pl_blit: BoundRenderPipeline,
    res_unif: UniformBuffer,
    res_internal_unif: UniformBuffer,
    /// The view of the colour target that the shader samples.
    image: TargetView,
    sampler: TextureSampler,
}

impl BlitPass {
    #[verifier::type_invariant]
    spec fn well_formed(&self) -> bool {
        &&& self.res_unif.label() == "Resolution Uniform"@
        &&& self.res_unif.words() == 2
        &&& self.res_internal_unif.label() == "Internal Resolution Uniform"@
        &&& self.res_internal_unif.words() == 2
    }

    /// The pipeline of this pass with its binding set.
    pub closed spec fn program(&self) -> BoundRenderPipeline {
        self.pl_blit
    }

    /// The pipeline of this pass.
    pub open spec fn pipeline(&self) -> RenderPipelineView {
        self.program()@
    }

    /// The calls that a draw makes on the device's pass: the pass is begun
    /// on `image` and cleared to opaque red, the pipeline is bound, and the
    /// vertices are drawn.
    pub open spec fn calls(&self, image: wgpu::TextureView, verts: Range<u32>, instances: Range<u32>) -> Seq<
        RenderCall,
    > {
        seq![RenderCall::Begin(image, color_value(ClearColor::Red), true)] + self.program().bind_calls().push(
            RenderCall::Draw(verts.start, verts.end, instances.start, instances.end),
        )
    }

    /// What a draw records for a window of size `window`, an internal render
    /// target of size `internal` and the frame image `image` of `target`:
    /// the upload of both sizes, then one render pass that clears the image
    /// to opaque red, binds the pipeline and draws, with the commands that
    /// the device's pass holds after those calls.
    pub open spec fn commands(
        &self,
        window: (u32, u32),
        internal: (u32, u32),
        target: Target,
        image: wgpu::TextureView,
        verts: Range<u32>,
        instances: Range<u32>,
    ) -> Seq<Command> {
        seq![
            Command::Write { buffer: "Resolution Uniform"@, words: resolution_words(window) },
            Command::Write { buffer: "Internal Resolution Uniform"@, words: resolution_words(internal) },
            Command::Render {
                label: "Blit Render Pass"@,
                target,
                clear: ClearColor::Red,
                steps: render_bind_steps(self.pipeline()).push(
                    Step::Draw {
                        first_vertex: verts.start,
                        end_vertex: verts.end,
                        first_instance: instances.start,
                        end_instance: instances.end,
                    },
                ),
                commands: render_commands(self.calls(image, verts, instances)),
            },
        ]
    }

    /// The uniform that holds the window size.
    pub closed spec fn window_uniform(&self) -> UniformBuffer {
        self.res_unif
    }

    /// The uniform that holds the size of the internal render target.
    pub closed spec fn internal_uniform(&self) -> UniformBuffer {
        self.res_internal_unif
    }

    /// The view of the colour target that the shader samples.
    pub closed spec fn image(&self) -> TargetView {
        self.image
    }

    /// The sampler that reads the image.
    pub closed spec fn sampler(&self) -> TextureSampler {
        self.sampler
    }

    /// Whether both size uniforms are as [`new`](Self::new) makes them: two
    /// words each, eight bytes, both zero, for use as a uniform that the
    /// queue can overwrite.
    pub open spec fn blank(&self) -> bool {
        &&& self.window_uniform().initial() == seq![0u32, 0u32]
        &&& buffer_request(self.window_uniform().handle()) == ("Resolution Uniform"@, 8u64, 72u32)
        &&& self.internal_uniform().initial() == seq![0u32, 0u32]
        &&& buffer_request(self.internal_uniform().handle()) == ("Internal Resolution Uniform"@, 8u64, 72u32)
    }

    /// Whether the device objects of this pass are what [`new`](Self::new)
    /// asks the device for: two size uniforms that start at zero, a sampler
    /// that clamps to the edge and takes the
    /// nearest texel, one binding set that puts the two size uniforms at
    /// slots 0 and 1, a view of the context's colour target at slot 2 and
    /// the sampler at slot 3, and a pipeline for the format of the surface
    /// whose vertex stage is served by [`DEFAULT_SHADER`] and whose fragment
    /// stage by the shader compiled from `shader`.
    pub open spec fn wired(&self, ctx: &RenderContext, shader: Seq<char>) -> bool {
        let sets = self.program().bound_sets();
        let request = render_request(self.program().handle());
        &&& self.blank()
        &&& view_texture(self.image().texture_view()) == ctx.color_target.handle()
        &&& self.image().target() == Target::Color
        &&& self.sampler().address() == AddressMode::ClampToEdge
        &&& self.sampler().filter() == FilterMode::Nearest
        &&& sampler_request(self.sampler().handle()) == sampling(AddressMode::ClampToEdge, FilterMode::Nearest)
        &&& self.program().vertex_buffers() == Seq::<wgpu::Buffer>::empty()
        &&& sets.len() == 1
        &&& layout_entries(sets[0].bind_group_layout()) == device_plan(blit_layout()).to_multiset()
        &&& group_request(sets[0].bind_group()) == (
            sets[0].bind_group_layout(),
            seq![
                GroupEntry::Buffer(0, self.window_uniform().handle()),
                GroupEntry::Buffer(1, self.internal_uniform().handle()),
                GroupEntry::View(2, self.image().texture_view()),
                GroupEntry::Sampler(3, self.sampler().handle()),
            ],
        )
        &&& shader_source(request.vertex) == ("Default Shader"@, DEFAULT_SHADER@)
        &&& shader_source(request.fragment) == ("Blit"@, shader)
        &&& render_asked(
            RenderPlan {
                label: "Blit Pipeline"@,
                topology: Topology::TriangleList,
                groups: seq![blit_set()],
                vertex_inputs: Seq::empty(),
                has_vertex_shader: true,
                has_fragment_shader: true,
                failure: None,
            },
            RenderParts {
                sets,
                vertex_shader: Some(request.vertex),
                fragment_shader: Some(request.fragment),
                vertex_buffers: Seq::empty(),
            },
            ctx.surface_format,
            request,
        )
    }

    /// Builds the pass for images of the context's surface format; `shader`
    /// is the WGSL source of the fragment shader.  The vertex stage is that
    /// of [`DEFAULT_SHADER`].
    ///
    /// The device alone decides whether the pass can be built.
    pub fn new(ctx: &RenderContext, shader: &str) -> (r: Result<BlitPass, BuildError>)
        ensures
            r matches Ok(pass) ==> {
                &&& pass.pipeline() == (RenderPipelineView {
                    label: "Blit Pipeline"@,
                    topology: Topology::TriangleList,
                    fixed: fixed_defaults(),
                    format: ctx.surface_format,
                    groups: seq![blit_set()],
                    vertex_inputs: Seq::empty(),
                })
                &&& pass.window_uniform().initial() == seq![0u32, 0u32]
                &&& buffer_request(pass.window_uniform().handle()) == ("Resolution Uniform"@, 8u64, 72u32)
                &&& pass.internal_uniform().initial() == seq![0u32, 0u32]
                &&& buffer_request(pass.internal_uniform().handle()) == (
                    "Internal Resolution Uniform"@,
                    8u64,
                    72u32,
                )
                &&& pass.wired(ctx, shader@)
            },
            r matches Err(e) ==> e.stage == BuildStage::Texture || e.stage == BuildStage::Sampler || e.stage
                == BuildStage::Buffer || e.stage.of_pipeline(),
    {
        let final_view = match ctx.color_view() {
            Ok(view) => view,
            Err(e) => {
                return Err(e);
            },
        };
        let sampler = match ctx.nearest_sampler() {
            Ok(sampler) => sampler,
            Err(e) => {
                return Err(e);
            },
        };
        let mut zeros: Vec<u32> = Vec::new();
        zeros.push(0);
        zeros.push(0);
        assert(zeros@ =~= seq![0u32, 0u32]);
        let res_unif = match UniformBuffer::new(
            &ctx.gpu,
            "Resolution Uniform",
            zeros.as_slice(),
        ) {
            Ok(buffer) => buffer,
            Err(e) => {
                return Err(e);
            },
        };
        let res_internal_unif = match UniformBuffer::new(
            &ctx.gpu,
            "Internal Resolution Uniform",
            zeros.as_slice(),
        ) {
            Ok(buffer) => buffer,
            Err(e) => {
                return Err(e);
            },
        };
        let window = Binding { vis: Visibility::fragment(), res: BindingResource::Uniform(res_unif.buffer()) };
        let internal = Binding {
            vis: Visibility::fragment(),
            res: BindingResource::Uniform(res_internal_unif.buffer()),
        };
        let picture = Binding {
            vis: Visibility::fragment(),
            res: BindingResource::Texture(&final_view, sampler.sampler()),
        };
        let ghost first = window;
        let ghost second = internal;
        let ghost third = picture;
        let bindings = BindgroupBuilder::new().resource(window).resource(internal).resource(picture);
        let ghost bound = bindings.bindings();
        proof {
            lemma_layout_push(Seq::empty(), first.shape());
            lemma_layout_push(Seq::empty().push(first.shape()), second.shape());
            lemma_layout_push(Seq::empty().push(first.shape()).push(second.shape()), third.shape());
            lemma_group_push(Seq::empty(), first);
            lemma_group_push(Seq::empty().push(first), second);
            lemma_group_push(Seq::empty().push(first).push(second), third);
            assert(bound =~= Seq::empty().push(first).push(second).push(third));
            assert(shapes_of(Seq::<Binding>::empty()) =~= Seq::empty());
            assert(layout_of(bindings.shapes()) =~= blit_layout());
            assert(bindings.textures() =~= seq![None, None, Some(TextureUse::Sampled(Target::Color))]);
            assert(group_plan(bound) =~= seq![
                GroupEntry::Buffer(0, res_unif.handle()),
                GroupEntry::Buffer(1, res_internal_unif.handle()),
                GroupEntry::View(2, final_view.texture_view()),
                GroupEntry::Sampler(3, sampler.handle()),
            ]);
        }
        let started = RenderPipelineBuilder::new();
        let with_vertex = started.vert(ctx.gpu.device(), "Default Shader", DEFAULT_SHADER);
        let with_fragment = with_vertex.frag(ctx.gpu.device(), "Blit", shader);
        let with_set = with_fragment.bind_group(ctx.gpu.device(), bindings);
        let named = with_set.topo(Topology::TriangleList).name("Blit Pipeline");
        let ghost plan = named@;
        let ghost parts = named.parts();
        match named.build(ctx.gpu.device(), &ctx.surface_format) {
            Err(e) => Err(e),
            Ok(pl_blit) => {
                proof {
                    assert(pl_blit@.groups =~= seq![blit_set()]);
                    assert(parts.sets =~= seq![parts.sets.last()]);
                    assert(plan.groups =~= seq![blit_set()]);
                    assert(plan.vertex_inputs =~= Seq::<crate::vertex::VertexLayoutView>::empty());
                    assert(parts.vertex_buffers =~= Seq::<wgpu::Buffer>::empty());
                }
                Ok(BlitPass { pl_blit, res_unif, res_internal_unif, image: final_view, sampler })
            },
        }
    }
}

/// For a pass as [`BlitPass::new`] builds it, the device's pass holds one
/// command for each call, and the calls are exactly: the pass begins on the
/// image of the frame, cleared to opaque red; then the pipeline, its bind
/// group at index 0, and the draw.
pub proof fn lemma_blit_commands(
    pass: &BlitPass,
    ctx: &RenderContext,
    shader: Seq<char>,
    image: wgpu::TextureView,
    verts: Range<u32>,
    instances: Range<u32>,
)
    requires
        pass.wired(ctx, shader),
    ensures
        render_commands(pass.calls(image, verts, instances)) == pass.calls(image, verts, instances),
        pass.calls(image, verts, instances) == seq![
            RenderCall::Begin(image, color_value(ClearColor::Red), true),
            RenderCall::Pipeline(pass.program().handle()),
            RenderCall::BindGroup(0, pass.program().bound_sets()[0].bind_group()),
            RenderCall::Draw(verts.start, verts.end, instances.start, instances.end),
        ],
{
    let program = pass.program();
    let job = DrawJob {
        pipeline: &program,
        vertices: (verts.start, verts.end),
        instances: (instances.start, instances.end),
    };
    let begin = RenderCall::Begin(image, color_value(ClearColor::Red), true);
    lemma_first_draw_job_kept(begin, job);
    assert(seq![begin] + job.calls() =~= pass.calls(image, verts, instances));
    assert(pass.calls(image, verts, instances) =~= seq![
        begin,
        RenderCall::Pipeline(pass.program().handle()),
        RenderCall::BindGroup(0, pass.program().bound_sets()[0].bind_group()),
        RenderCall::Draw(verts.start, verts.end, instances.start, instances.end),
    ]);
}

impl RenderStage for BlitPass {
    /// The blit pass draws to the image of the current frame, so there has
    /// to be one.
    open spec fn ready(&self, ctx: &RenderContext) -> bool {
        ctx.recording()
    }

    /// [`commands`](BlitPass::commands) for the sizes in the context and the
    /// image of the current frame.
    open spec fn recorded(&self, ctx: &RenderContext, verts: Range<u32>, instances: Range<u32>) -> Seq<Command> {
        self.commands(
            ctx.window_size,
            ctx.internal_target_size,
            ctx.current_surface_texture->0.target(),
            ctx.current_surface_texture->0.texture_view(),
            verts,
            instances,
        )
    }

    fn draw(&self, ctx: &RenderContext, stream: &mut CommandStream<'_>, verts: Range<u32>, instances: Range<u32>) {
        proof {
            use_type_invariant(self);
        }
        let window = resolution(ctx.window_size);
        stream.write(&self.res_unif, window.as_slice());
        let internal = resolution(ctx.internal_target_size);
        stream.write(&self.res_internal_unif, internal.as_slice());
        let mut jobs: Vec<DrawJob> = Vec::new();
        jobs.push(
            DrawJob {
                pipeline: &self.pl_blit,
                vertices: (verts.start, verts.end),
                instances: (instances.start, instances.end),
            },
        );
        proof {
            reveal_with_fuel(draw_steps, 2);
            assert(jobs@.drop_last() =~= Seq::empty());
            reveal_with_fuel(draw_job_calls, 2);
            assert(draw_steps(jobs@) =~= jobs@[0].steps());
            assert(draw_job_calls(jobs@) =~= jobs@[0].calls());
        }
        match &ctx.current_surface_texture {
            Some(view) => {
                assert(seq![RenderCall::Begin(view.texture_view(), color_value(ClearColor::Red), true)]
                    + draw_job_calls(jobs@) =~= self.calls(view.texture_view(), verts, instances));
                stream.render_pass("Blit Render Pass", view, ClearColor::Red, &jobs);
            },
            None => {},
        }
        assert(final(stream).trace() =~= old(stream).trace() + self.recorded(ctx, verts, instances));
    }
}

} // verus!
