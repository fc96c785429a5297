//! Pipeline builders and the pipelines they build.
//!
//! A builder collects shader modules, binding sets and vertex inputs; `build`
//! compiles them into a pipeline that keeps the binding sets and vertex
//! buffers it was built with.  Binding sets get their set index, and vertex
//! buffers their slot, from the order in which they were added.
//!
//! The builders are fluent and never fail half way: the first refusal by the
//! device is remembered, later steps leave the builder as it is, and `build`
//! returns that refusal.

use std::rc::Rc;
use vstd::prelude::*;

use crate::binding::{slots_needed, BindgroupBuilder, BindingSet, BindingSetView};
use crate::error::{staged, BuildError, BuildStage};
use crate::gpu::{
    color_target, create_compute_pipeline, create_pipeline_layout, create_render_pipeline,
    create_shader_module, cull_mode_of, front_face_of, multisample_state, polygon_mode_of,
    primitive_state, topology_of, vertex_attribute, vertex_buffer_layout,
};
use crate::gpu::{
    attribute_value, buffer_layout_value, compute_request, cull_value, front_face_value, multisample_value,
    pipeline_sets, polygon_value, primitive_value, render_request, shader_source, target_value,
    topology_value, ComputeCall, ComputeRequest, RenderCall, RenderRequest,
};
use crate::stream::{ComputeScope, RenderScope, Step};
use crate::vertex::{VertexLayout, VertexLayoutView};

verus! {

/// The entry point of every vertex shader.
pub const VERTEX_ENTRY: &'static str = "vs_main";

/// The entry point of every fragment shader.
pub const FRAGMENT_ENTRY: &'static str = "fs_main";

/// The entry point of every compute shader.
pub const COMPUTE_ENTRY: &'static str = "cs_main";

/// The shader a render pipeline falls back on for a stage that was not set:
/// its vertex stage covers the whole target with two triangles made from the
/// vertex index alone, its fragment stage passes the interpolated position
/// on as a colour.
pub const DEFAULT_SHADER: &'static str = "struct VertexOutput {\n    @builtin(position) position: vec4<f32>,\n    @location(0) uv: vec2<f32>,\n};\n\n@vertex\nfn vs_main(@builtin(vertex_index) index: u32) -> VertexOutput {\n    var corners = array<vec2<f32>, 6>(\n        vec2<f32>(-1.0, -1.0),\n        vec2<f32>(1.0, -1.0),\n        vec2<f32>(1.0, 1.0),\n        vec2<f32>(-1.0, -1.0),\n        vec2<f32>(1.0, 1.0),\n        vec2<f32>(-1.0, 1.0),\n    );\n    var out: VertexOutput;\n    let corner = corners[index % 6u];\n    out.position = vec4<f32>(corner, 0.0, 1.0);\n    out.uv = corner * vec2<f32>(0.5, -0.5) + vec2<f32>(0.5, 0.5);\n    return out;\n}\n\n@fragment\nfn fs_main(in: VertexOutput) -> @location(0) vec4<f32> {\n    return vec4<f32>(in.uv, 0.0, 1.0);\n}\n";

/// Every colour channel may be written.
pub const COLOR_WRITE_ALL: u32 = 15;

/// How vertices are assembled into primitives.
#[derive(Clone, Copy, Debug, PartialEq, Eq, Structural)]
pub enum Topology {
    PointList,
    LineList,
    LineStrip,
    TriangleList,
    TriangleStrip,
}

/// Which winding order marks the front of a triangle.
#[derive(Clone, Copy, Debug, PartialEq, Eq, Structural)]
pub enum Winding {
    CounterClockwise,
    Clockwise,
}

/// Which faces are discarded.
#[derive(Clone, Copy, Debug, PartialEq, Eq, Structural)]
pub enum Culling {
    Disabled,
    FrontFaces,
    BackFaces,
}

/// How polygons are rasterised.
#[derive(Clone, Copy, Debug, PartialEq, Eq, Structural)]
pub enum Rasterization {
    Fill,
    Line,
    Point,
}

/// How a fragment is combined with what the target holds.
#[derive(Clone, Copy, Debug, PartialEq, Eq, Structural)]
pub enum Blending {
    Replace,
    Alpha,
    PremultipliedAlpha,
}

/// The fixed-function state of a render pipeline.  Pipelines never have a
/// depth or stencil attachment.
#[derive(Clone, Copy, Debug, PartialEq, Eq, Structural)]
pub struct FixedFunction {
    pub winding: Winding,
    pub culling: Culling,
    pub polygons: Rasterization,
    pub unclipped_depth: bool,
    pub conservative: bool,
    /// Samples per pixel.
    pub samples: u32,
    /// Which samples are written.
    pub sample_mask: u64,
    pub alpha_to_coverage: bool,
    pub blending: Blending,
    /// Which colour channels are written, one bit each.
    pub write_mask: u32,
    /// Whether fragments are tested against a depth or stencil attachment.
    pub depth_stencil: bool,
}

/// The state every render pipeline of this crate is built with:
/// counter-clockwise front faces, back faces culled, filled polygons, one
/// sample per pixel, fragments replace the target, all channels written,
/// neither depth nor stencil test.
pub open spec fn fixed_defaults() -> FixedFunction {
    FixedFunction {
        winding: Winding::CounterClockwise,
        culling: Culling::BackFaces,
        polygons: Rasterization::Fill,
        unclipped_depth: false,
        conservative: false,
        samples: 1,
        sample_mask: 0xffff_ffff_ffff_ffff,
        alpha_to_coverage: false,
        blending: Blending::Replace,
        write_mask: 15,
        depth_stencil: false,
    }
}

impl FixedFunction {
    /// The state every render pipeline of this crate is built with.
    pub fn defaults() -> (f: FixedFunction)
        ensures
            f == fixed_defaults(),
    {
        FixedFunction {
            winding: Winding::CounterClockwise,
            culling: Culling::BackFaces,
            polygons: Rasterization::Fill,
            unclipped_depth: false,
            conservative: false,
            samples: 1,
            sample_mask: 0xffff_ffff_ffff_ffff,
            alpha_to_coverage: false,
            blending: Blending::Replace,
            write_mask: COLOR_WRITE_ALL,
            depth_stencil: false,
        }
    }
}

/// The steps that attach the given binding sets, set `i` at index `i`.
pub open spec fn group_steps(groups: Seq<BindingSetView>) -> Seq<Step> {
    Seq::new(groups.len(), |i: int| Step::SetBindGroup { index: i as u32, set: groups[i] })
}

/// The steps that attach `count` vertex buffers, buffer `i` at slot `i`.
pub open spec fn vertex_steps(count: nat) -> Seq<Step> {
    Seq::new(count, |i: int| Step::SetVertexBuffer { slot: i as u32 })
}

/// The values of a list of binding sets.
pub open spec fn views_of(sets: Seq<BindingSet>) -> Seq<BindingSetView> {
    Seq::new(sets.len(), |i: int| sets[i]@)
}

/// The values of a list of vertex layouts.
pub open spec fn inputs_of(layouts: Seq<VertexLayout>) -> Seq<VertexLayoutView> {
    Seq::new(layouts.len(), |i: int| layouts[i]@)
}

/// What binding a render pipeline records: the pipeline, then every binding
/// set at its index, then every vertex buffer at its slot.
pub open spec fn render_bind_steps(pipeline: RenderPipelineView) -> Seq<Step> {
    seq![Step::SetPipeline { name: pipeline.label }] + group_steps(pipeline.groups) + vertex_steps(
        pipeline.vertex_inputs.len(),
    )
}

/// What binding a compute pipeline records: the pipeline, then every binding
/// set at its index.
pub open spec fn compute_bind_steps(pipeline: ComputePipelineView) -> Seq<Step> {
    seq![Step::SetPipeline { name: pipeline.label }] + group_steps(pipeline.groups)
}

/// The vertex attributes that the device is given for a list of attributes,
/// one for one.
pub open spec fn attribute_plan(attributes: Seq<crate::vertex::Attribute>) -> Seq<wgpu::VertexAttribute> {
    Seq::new(
        attributes.len(),
        |k: int| attribute_value(attributes[k].location, attributes[k].offset, attributes[k].format),
    )
}

/// The vertex buffer layouts that the device is given for a list of vertex
/// inputs, one for one.
pub open spec fn vertex_plan(inputs: Seq<VertexLayoutView>) -> Seq<wgpu::VertexBufferLayout<'static>> {
    Seq::new(
        inputs.len(),
        |i: int| buffer_layout_value(inputs[i].stride, inputs[i].step, attribute_plan(inputs[i].attributes)),
    )
}

/// The device objects that a render pipeline builder has collected.
pub struct RenderParts {
    /// The binding sets; set index is position.
    pub sets: Seq<BindingSet>,
    /// The module that [`RenderPipelineBuilder::vert`] compiled, if any.
    pub vertex_shader: Option<wgpu::ShaderModule>,
    /// The module that [`RenderPipelineBuilder::frag`] compiled, if any.
    pub fragment_shader: Option<wgpu::ShaderModule>,
    /// The vertex buffers; slot is position.
    pub vertex_buffers: Seq<wgpu::Buffer>,
}

/// Whether `module` is the shader that serves a stage for which `chosen` was
/// set: the chosen module, or, where none was chosen, a module compiled from
/// [`DEFAULT_SHADER`].
pub open spec fn serves(chosen: Option<wgpu::ShaderModule>, module: wgpu::ShaderModule) -> bool {
    match chosen {
        Some(set) => module == set,
        None => shader_source(module) == ("Default Shader"@, DEFAULT_SHADER@),
    }
}

/// Whether `request` is what a builder with this plan and these parts asks
/// the device for, for a colour target of `format`: its name, its binding
/// sets in their order, its shaders (or the default) with the fixed entry
/// points, its vertex inputs, its topology with the fixed-function state of
/// [`fixed_defaults`], one target of `format` that fragments replace, and
/// neither depth nor stencil test.
pub open spec fn render_asked(
    plan: RenderPlan,
    parts: RenderParts,
    format: wgpu::TextureFormat,
    request: RenderRequest,
) -> bool {
    let fixed = fixed_defaults();
    &&& request.label == plan.label
    &&& pipeline_sets(request.layout) == group_layouts(parts.sets)
    &&& serves(parts.vertex_shader, request.vertex)
    &&& request.vertex_entry == VERTEX_ENTRY@
    &&& request.buffers == vertex_plan(plan.vertex_inputs)
    &&& serves(parts.fragment_shader, request.fragment)
    &&& request.fragment_entry == FRAGMENT_ENTRY@
    &&& request.primitive == primitive_value(
        topology_value(plan.topology),
        front_face_value(fixed.winding),
        cull_value(fixed.culling),
        polygon_value(fixed.polygons),
        fixed.unclipped_depth,
        fixed.conservative,
    )
    &&& request.multisample == multisample_value(fixed.samples, fixed.sample_mask, fixed.alpha_to_coverage)
    &&& request.target == target_value(format, fixed.blending, fixed.write_mask)
    &&& request.depth_stencil is Some == fixed.depth_stencil
}

/// The device objects that a compute pipeline builder has collected.
pub struct ComputeParts {
    /// The binding sets; set index is position.
    pub sets: Seq<BindingSet>,
    /// The shader module, unless the device refused it.
    pub shader: Option<wgpu::ShaderModule>,
}

/// Whether `request` is what a builder with this plan and these parts asks
/// the device for: its name, its binding sets in their order, and its shader
/// with the fixed entry point.
pub open spec fn compute_asked(plan: ComputePlan, parts: ComputeParts, request: ComputeRequest) -> bool {
    &&& request.label == plan.label
    &&& pipeline_sets(request.layout) == group_layouts(parts.sets)
    &&& parts.shader == Some(request.module)
    &&& request.entry == COMPUTE_ENTRY@
}

/// What a built render pipeline is, as far as this crate decides it.
pub struct RenderPipelineView {
    /// The diagnostic name.
    pub label: Seq<char>,
    pub topology: Topology,
    pub fixed: FixedFunction,
    /// The format of the colour target that the pipeline draws to.
    pub format: wgpu::TextureFormat,
    /// The binding sets; set index is position.
    pub groups: Seq<BindingSetView>,
    /// The layout of each vertex buffer; slot is position.
    pub vertex_inputs: Seq<VertexLayoutView>,
}

/// A compiled render pipeline with the binding sets and vertex buffers it was
/// built with.
pub struct BoundRenderPipeline {
    pl: wgpu::RenderPipeline,
    sets: Vec<BindingSet>,
    vertex_buffers: Vec<Rc<wgpu::Buffer>>,
    vertex_layouts: Vec<VertexLayout>,
    name: String,
    topo: Topology,
    fixed: FixedFunction,
    format: wgpu::TextureFormat,
}

impl View for BoundRenderPipeline {
    type V = RenderPipelineView;

    closed spec fn view(&self) -> RenderPipelineView {
        RenderPipelineView {
            label: self.name@,
            topology: self.topo,
            fixed: self.fixed,
            format: self.format,
            groups: views_of(self.sets@),
            vertex_inputs: inputs_of(self.vertex_layouts@),
        }
    }
}

impl BoundRenderPipeline {
    #[verifier::type_invariant]
    spec fn well_formed(&self) -> bool {
        &&& self.sets@.len() <= u32::MAX
        &&& self.vertex_buffers@.len() <= u32::MAX
        &&& self.vertex_buffers@.len() == self.vertex_layouts@.len()
    }

    /// What [`bind`](Self::bind) records.
    pub open spec fn bind_steps(&self) -> Seq<Step> {
        render_bind_steps(self@)
    }

    /// The device's pipeline.
    pub closed spec fn handle(&self) -> wgpu::RenderPipeline {
        self.pl
    }

    /// The binding sets; set index is position.
    pub closed spec fn bound_sets(&self) -> Seq<BindingSet> {
        self.sets@
    }

    /// The device's bind group of each binding set; set index is position.
    pub open spec fn bind_groups(&self) -> Seq<wgpu::BindGroup> {
        Seq::new(self.bound_sets().len(), |i: int| self.bound_sets()[i].bind_group())
    }

    /// The vertex buffers; slot is position.
    pub closed spec fn vertex_buffers(&self) -> Seq<wgpu::Buffer> {
        Seq::new(self.vertex_buffers@.len(), |i: int| *self.vertex_buffers@[i])
    }

    /// The calls that [`bind`](Self::bind) makes on the device's pass: the
    /// pipeline, then every bind group at its index, then every vertex
    /// buffer at its slot.
    pub open spec fn bind_calls(&self) -> Seq<RenderCall> {
        seq![RenderCall::Pipeline(self.handle())] + Seq::new(
            self.bind_groups().len(),
            |i: int| RenderCall::BindGroup(i as u32, self.bind_groups()[i]),
        ) + Seq::new(
            self.vertex_buffers().len(),
            |i: int| RenderCall::VertexBuffer(i as u32, self.vertex_buffers()[i]),
        )
    }

    /// The diagnostic name of this pipeline.
    pub fn name(&self) -> (name: &String)
        ensures
            name@ == self@.label,
    {
        &self.name
    }

    /// The topology this pipeline assembles.
    pub fn topology(&self) -> (t: Topology)
        ensures
            t == self@.topology,
    {
        self.topo
    }

    /// The fixed-function state of this pipeline.
    pub fn fixed_function(&self) -> (f: FixedFunction)
        ensures
            f == self@.fixed,
    {
        self.fixed
    }

    /// The binding sets of this pipeline; set index is position.
    pub fn sets(&self) -> (sets: &Vec<BindingSet>)
        ensures
            views_of(sets@) == self@.groups,
    {
        &self.sets
    }

    /// Makes this pipeline current in `scope` and attaches its binding sets
    /// and vertex buffers.
    pub fn bind<'a>(&'a self, scope: &mut RenderScope<'a>)
        ensures
            final(scope).steps() == old(scope).steps() + self.bind_steps(),
            final(scope).log() == old(scope).log().told_all(self.bind_calls()),
    {
        proof {
            use_type_invariant(self);
        }
        let ghost before = scope.steps();
        let ghost head = seq![Step::SetPipeline { name: self@.label }];
        let ghost groups = group_steps(self@.groups);
        let ghost buffers = vertex_steps(self@.vertex_inputs.len());
        let ghost told = scope.log();
        let ghost first = seq![RenderCall::Pipeline(self.handle())];
        let ghost bound = Seq::new(
            self.bind_groups().len(),
            |i: int| RenderCall::BindGroup(i as u32, self.bind_groups()[i]),
        );
        let ghost streams = Seq::new(
            self.vertex_buffers().len(),
            |i: int| RenderCall::VertexBuffer(i as u32, self.vertex_buffers()[i]),
        );
        scope.set_pipeline(&self.pl, Ghost(self.name@));
        proof {
            assert(first.drop_last() =~= Seq::empty());
            assert(told.told_all(first.drop_last()) == told);
            assert(first + bound.take(0) =~= first);
        }
        let mut i: usize = 0;
        while i < self.sets.len()
            invariant
                i <= self.sets@.len(),
                self.sets@.len() <= u32::MAX,
                groups == group_steps(views_of(self.sets@)),
                scope.steps() == before + head + groups.take(i as int),
                bound.len() == self.sets@.len(),
                forall|j: int| 0 <= j < bound.len() ==> bound[j] == RenderCall::BindGroup(
                    j as u32,
                    self.sets@[j].bind_group(),
                ),
                scope.log() == told.told_all(first + bound.take(i as int)),
            decreases self.sets@.len() - i,
        {
            scope.set_bind_group(i as u32, &self.sets[i]);
            assert(scope.steps() =~= before + head + groups.take(i + 1));
            assert((first + bound.take(i + 1)).drop_last() =~= first + bound.take(i as int));
            i += 1;
        }
        assert(groups.take(i as int) =~= groups);
        assert(bound.take(i as int) =~= bound);
        let mut k: usize = 0;
        while k < self.vertex_buffers.len()
            invariant
                k <= self.vertex_buffers@.len(),
                self.vertex_buffers@.len() <= u32::MAX,
                buffers == vertex_steps(self.vertex_buffers@.len()),
                scope.steps() == before + head + groups + buffers.take(k as int),
                streams.len() == self.vertex_buffers@.len(),
                forall|j: int| 0 <= j < streams.len() ==> streams[j] == RenderCall::VertexBuffer(
                    j as u32,
                    *self.vertex_buffers@[j],
                ),
                scope.log() == told.told_all(first + bound + streams.take(k as int)),
            decreases self.vertex_buffers@.len() - k,
        {
            scope.set_vertex_buffer(k as u32, &self.vertex_buffers[k]);
            assert(scope.steps() =~= before + head + groups + buffers.take(k + 1));
            assert((first + bound + streams.take(k + 1)).drop_last() =~= first + bound + streams.take(k as int));
            k += 1;
        }
        assert(buffers.take(k as int) =~= buffers);
        assert(streams.take(k as int) =~= streams);
        assert(scope.steps() =~= before + self.bind_steps());
        assert(scope.log() == told.told_all(self.bind_calls()));
    }
}

/// What a render pipeline builder has collected.
pub struct RenderPlan {
    /// The diagnostic name.
    pub label: Seq<char>,
    pub topology: Topology,
    /// The binding sets added; set index is position.
    pub groups: Seq<BindingSetView>,
    /// The layout of each vertex buffer added; slot is position.
    pub vertex_inputs: Seq<VertexLayoutView>,
    pub has_vertex_shader: bool,
    pub has_fragment_shader: bool,
    /// The first refusal by the device, if there was one.
    pub failure: Option<BuildError>,
}

/// Collects the parts of a render pipeline.
pub struct RenderPipelineBuilder<'a> {
    sets: Vec<BindingSet>,
    frag: Option<wgpu::ShaderModule>,
    vert: Option<wgpu::ShaderModule>,
    vertex_buffers: Vec<Rc<wgpu::Buffer>>,
    vertex_buffer_layouts: Vec<VertexLayout>,
    topo: Topology,
    name: &'a str,
    failure: Option<BuildError>,
}

impl<'a> View for RenderPipelineBuilder<'a> {
    type V = RenderPlan;

    closed spec fn view(&self) -> RenderPlan {
        RenderPlan {
            label: self.name@,
            topology: self.topo,
            groups: views_of(self.sets@),
            vertex_inputs: inputs_of(self.vertex_buffer_layouts@),
            has_vertex_shader: self.vert is Some,
            has_fragment_shader: self.frag is Some,
            failure: self.failure,
        }
    }
}

impl<'a> RenderPipelineBuilder<'a> {
    #[verifier::type_invariant]
    spec fn well_formed(&self) -> bool {
        &&& self.sets@.len() <= u32::MAX
        &&& self.vertex_buffers@.len() <= u32::MAX
        &&& self.vertex_buffers@.len() == self.vertex_buffer_layouts@.len()
    }

    /// The device objects collected so far.
    pub closed spec fn parts(&self) -> RenderParts {
        RenderParts {
            sets: self.sets@,
            vertex_shader: self.vert,
            fragment_shader: self.frag,
            vertex_buffers: Seq::new(self.vertex_buffers@.len(), |i: int| *self.vertex_buffers@[i]),
        }
    }

    /// A builder for a triangle-list pipeline named "Render Pipeline" with
    /// no shaders, binding sets or vertex buffers.
    pub fn new() -> (b: Self)
        ensures
            b@ == (RenderPlan {
                label: "Render Pipeline"@,
                topology: Topology::TriangleList,
                groups: Seq::empty(),
                vertex_inputs: Seq::empty(),
                has_vertex_shader: false,
                has_fragment_shader: false,
                failure: None,
            }),
            b.parts() == (RenderParts {
                sets: Seq::empty(),
                vertex_shader: None,
                fragment_shader: None,
                vertex_buffers: Seq::empty(),
            }),
    {
        let b = RenderPipelineBuilder {
            sets: Vec::new(),
            frag: None,
            vert: None,
            vertex_buffers: Vec::new(),
            vertex_buffer_layouts: Vec::new(),
            topo: Topology::TriangleList,
            name: "Render Pipeline",
            failure: None,
        };
        assert(b@.groups =~= Seq::empty());
        assert(b@.vertex_inputs =~= Seq::empty());
        assert(b.parts().sets =~= Seq::empty());
        assert(b.parts().vertex_buffers =~= Seq::empty());
        b
    }

    /// Builds `builder` on the device and adds the set behind those already
    /// there.
    ///
    /// After an earlier refusal nothing is asked of the device.  If the
    /// device refuses this set, that becomes the builder's failure.
    pub fn bind_group(self, device: &wgpu::Device, builder: BindgroupBuilder) -> (b: Self)
        requires
            slots_needed(builder.shapes()) <= u32::MAX,
            self@.groups.len() < u32::MAX,
        ensures
            self@.failure is Some ==> b@ == self@,
            self@.failure is None && b@.failure is None ==> b@ == (RenderPlan {
                groups: self@.groups.push(builder.plan()),
                ..self@
            }),
            self@.failure is None && b@.failure is Some ==> b@ == (RenderPlan { failure: b@.failure, ..self@ })
                && (b@.failure->0.stage == BuildStage::BindGroupLayout || b@.failure->0.stage
                == BuildStage::BindGroup),
            self@.failure is Some || b@.failure is Some ==> b.parts() == self.parts(),
            self@.failure is None && b@.failure is None ==> b.parts() == (RenderParts {
                sets: self.parts().sets.push(b.parts().sets.last()),
                ..self.parts()
            }) && b.parts().sets.last().made_of(builder.bindings()),
    {
        proof {
            use_type_invariant(&self);
        }
        let RenderPipelineBuilder { sets, frag, vert, vertex_buffers, vertex_buffer_layouts, topo, name, failure } =
            self;
        let mut sets = sets;
        let mut failure = failure;
        if failure.is_none() {
            match builder.build(device) {
                Ok(set) => {
                    sets.push(set);
                },
                Err(e) => {
                    failure = Some(e);
                },
            }
        }
        let next = RenderPipelineBuilder {
            sets,
            frag,
            vert,
            vertex_buffers,
            vertex_buffer_layouts,
            topo,
            name,
            failure,
        };
        assert(self@.failure is None && next@.failure is None ==> next@.groups =~= self@.groups.push(
            builder.plan(),
        ));
        assert(self@.failure is Some || next@.failure is Some ==> next@.groups =~= self@.groups);
        assert(next.parts().vertex_buffers =~= self.parts().vertex_buffers);
        assert(self@.failure is None && next@.failure is None ==> next.parts().sets =~= self.parts().sets.push(
            next.parts().sets.last(),
        ));
        next
    }

    /// Compiles the WGSL text `source` as the fragment shader, under `label`.
    ///
    /// After an earlier refusal nothing is asked of the device.  If the
    /// device refuses the module, that becomes the builder's failure.
    pub fn frag(self, device: &wgpu::Device, label: &str, source: &str) -> (b: Self)
        ensures
            self@.failure is Some ==> b@ == self@,
            self@.failure is None && b@.failure is None ==> b@ == (RenderPlan {
                has_fragment_shader: true,
                ..self@
            }),
            self@.failure is None && b@.failure is Some ==> b@ == (RenderPlan { failure: b@.failure, ..self@ })
                && b@.failure->0.stage == BuildStage::ShaderModule,
            self@.failure is Some || b@.failure is Some ==> b.parts() == self.parts(),
            self@.failure is None && b@.failure is None ==> b.parts() == (RenderParts {
                fragment_shader: b.parts().fragment_shader,
                ..self.parts()
            }) && b.parts().fragment_shader is Some && shader_source(b.parts().fragment_shader->0) == (
                label@,
                source@,
            ),
    {
        proof {
            use_type_invariant(&self);
        }
        let mut next = self;
        if next.failure.is_none() {
            match staged(BuildStage::ShaderModule, create_shader_module(device, label, source)) {
                Ok(shader) => {
                    next.frag = Some(shader);
                },
                Err(e) => {
                    next.failure = Some(e);
                },
            }
        }
        next
    }

    /// Compiles the WGSL text `source` as the vertex shader, under `label`.
    ///
    /// After an earlier refusal nothing is asked of the device.  If the
    /// device refuses the module, that becomes the builder's failure.
    pub fn vert(self, device: &wgpu::Device, label: &str, source: &str) -> (b: Self)
        ensures
            self@.failure is Some ==> b@ == self@,
            self@.failure is None && b@.failure is None ==> b@ == (RenderPlan {
                has_vertex_shader: true,
                ..self@
            }),
            self@.failure is None && b@.failure is Some ==> b@ == (RenderPlan { failure: b@.failure, ..self@ })
                && b@.failure->0.stage == BuildStage::ShaderModule,
            self@.failure is Some || b@.failure is Some ==> b.parts() == self.parts(),
            self@.failure is None && b@.failure is None ==> b.parts() == (RenderParts {
                vertex_shader: b.parts().vertex_shader,
                ..self.parts()
            }) && b.parts().vertex_shader is Some && shader_source(b.parts().vertex_shader->0) == (
                label@,
                source@,
            ),
    {
        proof {
            use_type_invariant(&self);
        }
        let mut next = self;
        if next.failure.is_none() {
            match staged(BuildStage::ShaderModule, create_shader_module(device, label, source)) {
                Ok(shader) => {
                    next.vert = Some(shader);
                },
                Err(e) => {
                    next.failure = Some(e);
                },
            }
        }
        next
    }

    /// Sets the diagnostic name.
    pub fn name(self, name: &'a str) -> (b: Self)
        ensures
            b@ == (RenderPlan { label: name@, ..self@ }),
            b.parts() == self.parts(),
    {
        proof {
            use_type_invariant(&self);
        }
        let mut next = self;
        next.name = name;
        next
    }

    /// Sets the primitive topology.
    pub fn topo(self, topo: Topology) -> (b: Self)
        ensures
            b@ == (RenderPlan { topology: topo, ..self@ }),
            b.parts() == self.parts(),
    {
        proof {
            use_type_invariant(&self);
        }
        let mut next = self;
        next.topo = topo;
        next
    }

    /// Adds a vertex buffer and the layout of its records behind those
    /// already there.
    pub fn vertex_buffer(self, layout: VertexLayout, buffer: Rc<wgpu::Buffer>) -> (b: Self)
        requires
            self@.vertex_inputs.len() < u32::MAX,
        ensures
            b@ == (RenderPlan { vertex_inputs: self@.vertex_inputs.push(layout@), ..self@ }),
            b.parts() == (RenderParts {
                vertex_buffers: self.parts().vertex_buffers.push(*buffer),
                ..self.parts()
            }),
    {
        proof {
            use_type_invariant(&self);
        }
        let RenderPipelineBuilder { sets, frag, vert, vertex_buffers, vertex_buffer_layouts, topo, name, failure } =
            self;
        let mut vertex_buffers = vertex_buffers;
        let mut vertex_buffer_layouts = vertex_buffer_layouts;
        vertex_buffer_layouts.push(layout);
        vertex_buffers.push(buffer);
        let next = RenderPipelineBuilder {
            sets,
            frag,
            vert,
            vertex_buffers,
            vertex_buffer_layouts,
            topo,
            name,
            failure,
        };
        assert(next@.vertex_inputs =~= self@.vertex_inputs.push(layout@));
        assert(next.parts().vertex_buffers =~= self.parts().vertex_buffers.push(*buffer));
        next
    }

    /// Compiles the pipeline for a colour target of `format`.
    ///
    /// A builder that remembers a refusal returns it.  Otherwise a stage
    /// without a shader gets a module compiled from [`DEFAULT_SHADER`], the
    /// device is asked for what [`render_asked`] says, and the device
    /// decides; the pipeline it builds keeps the builder's binding sets and
    /// vertex buffers.
    pub fn build(self, device: &wgpu::Device, format: &wgpu::TextureFormat) -> (r: Result<
        BoundRenderPipeline,
        BuildError,
    >)
        ensures
            self@.failure matches Some(e) ==> r == Err::<BoundRenderPipeline, BuildError>(e),
            r matches Ok(p) ==> {
                &&& p@ == (RenderPipelineView {
                    label: self@.label,
                    topology: self@.topology,
                    fixed: fixed_defaults(),
                    format: *format,
                    groups: self@.groups,
                    vertex_inputs: self@.vertex_inputs,
                })
                &&& p.bound_sets() == self.parts().sets
                &&& p.bound_sets().len() <= u32::MAX
                &&& p.vertex_buffers() == self.parts().vertex_buffers
                &&& render_asked(self@, self.parts(), *format, render_request(p.handle()))
            },
            r matches Err(e) ==> self@.failure is None ==> e.stage == BuildStage::ShaderModule || e.stage
                == BuildStage::PipelineLayout || e.stage == BuildStage::Pipeline,
    {
        proof {
            use_type_invariant(&self);
        }
        let RenderPipelineBuilder { sets, frag, vert, vertex_buffers, vertex_buffer_layouts, topo, name, failure } =
            self;
        if let Some(e) = failure {
            return Err(e);
        }
        let frag = match frag {
            Some(shader) => shader,
            None => {
                match staged(
                    BuildStage::ShaderModule,
                    create_shader_module(device, "Default Shader", DEFAULT_SHADER),
                ) {
                    Ok(shader) => shader,
                    Err(e) => {
                        return Err(e);
                    },
                }
            },
        };
        let vert = match vert {
            Some(shader) => shader,
            None => {
                match staged(
                    BuildStage::ShaderModule,
                    create_shader_module(device, "Default Shader", DEFAULT_SHADER),
                ) {
                    Ok(shader) => shader,
                    Err(e) => {
                        return Err(e);
                    },
                }
            },
        };
        let layout = match pipeline_layout(device, "Render Pipeline Layout", &sets) {
            Ok(layout) => layout,
            Err(e) => {
                return Err(e);
            },
        };
        let attributes = device_attributes(&vertex_buffer_layouts);
        let buffers = device_vertex_layouts(&vertex_buffer_layouts, &attributes);
        let fixed = FixedFunction::defaults();
        let primitive = primitive_state(
            topology_of(topo),
            front_face_of(fixed.winding),
            cull_mode_of(fixed.culling),
            polygon_mode_of(fixed.polygons),
            fixed.unclipped_depth,
            fixed.conservative,
        );
        let multisample = multisample_state(fixed.samples, fixed.sample_mask, fixed.alpha_to_coverage);
        let target = color_target(*format, fixed.blending, fixed.write_mask);
        let made = create_render_pipeline(
            device,
            name,
            &layout,
            (&vert, VERTEX_ENTRY),
            &buffers,
            (&frag, FRAGMENT_ENTRY),
            (primitive, multisample, target, None),
        );
        match staged(BuildStage::Pipeline, made) {
            Err(e) => Err(e),
            Ok(pl) => Ok(
                BoundRenderPipeline {
                    pl,
                    sets,
                    vertex_buffers,
                    vertex_layouts: vertex_buffer_layouts,
                    name: name.to_owned(),
                    topo,
                    fixed,
                    format: *format,
                },
            ),
        }
    }
}

/// Asks the device for a pipeline layout whose set `i` is the layout of
/// `sets[i]`.
///
/// The device alone decides whether the layout can be had; the layout it
/// makes is made of the bind group layouts of `sets`, in their order.
fn pipeline_layout(device: &wgpu::Device, label: &str, sets: &Vec<BindingSet>) -> (r: Result<
    wgpu::PipelineLayout,
    BuildError,
>)
    ensures
        r matches Ok(made) ==> pipeline_sets(made) == group_layouts(sets@),
        r matches Err(e) ==> e.stage == BuildStage::PipelineLayout,
{
    let layouts = set_layouts(sets);
    assert(Seq::new(layouts@.len(), |i: int| *layouts@[i]) =~= group_layouts(sets@));
    staged(BuildStage::PipelineLayout, create_pipeline_layout(device, label, &layouts))
}

/// The bind group layouts of a list of binding sets.
pub open spec fn group_layouts(sets: Seq<BindingSet>) -> Seq<wgpu::BindGroupLayout> {
    Seq::new(sets.len(), |i: int| sets[i].bind_group_layout())
}

/// The bind group layouts of `sets`, one for each set and in the order of the
/// sets: what the device is given as set `i` of a pipeline layout is the
/// layout of `sets[i]`.
fn set_layouts(sets: &Vec<BindingSet>) -> (layouts: Vec<&wgpu::BindGroupLayout>)
    ensures
        layouts@.len() == sets@.len(),
        forall|i: int| 0 <= i < layouts@.len() ==> *(#[trigger] layouts@[i]) == group_layouts(sets@)[i],
{
    let mut layouts: Vec<&wgpu::BindGroupLayout> = Vec::new();
    let mut i: usize = 0;
    while i < sets.len()
        invariant
            i <= sets@.len(),
            layouts@.len() == i,
            forall|k: int| 0 <= k < i ==> *(#[trigger] layouts@[k]) == group_layouts(sets@)[k],
        decreases sets@.len() - i,
    {
        layouts.push(sets[i].group_layout());
        i += 1;
    }
    layouts
}

/// Translates the attributes of every vertex layout for the device, list
/// by list and in order.
fn device_attributes(layouts: &Vec<VertexLayout>) -> (lists: Vec<Vec<wgpu::VertexAttribute>>)
    ensures
        lists@.len() == layouts@.len(),
        forall|i: int|
            0 <= i < lists@.len() ==> (#[trigger] lists@[i])@ == attribute_plan(layouts@[i]@.attributes),
{
    let mut lists: Vec<Vec<wgpu::VertexAttribute>> = Vec::new();
    let mut i: usize = 0;
    while i < layouts.len()
        invariant
            i <= layouts@.len(),
            lists@.len() == i,
            forall|j: int| 0 <= j < i ==> (#[trigger] lists@[j])@ == attribute_plan(layouts@[j]@.attributes),
        decreases layouts@.len() - i,
    {
        let layout = &layouts[i];
        let ghost plan = attribute_plan(layout@.attributes);
        let mut list: Vec<wgpu::VertexAttribute> = Vec::new();
        let mut k: usize = 0;
        while k < layout.attributes.len()
            invariant
                k <= layout.attributes@.len(),
                plan == attribute_plan(layout.attributes@),
                list@ == plan.take(k as int),
            decreases layout.attributes@.len() - k,
        {
            list.push(vertex_attribute(&layout.attributes[k]));
            assert(list@ =~= plan.take(k + 1));
            k += 1;
        }
        assert(plan.take(k as int) =~= plan);
        lists.push(list);
        i += 1;
    }
    lists
}

/// Pairs every vertex layout with its translated attributes.
fn device_vertex_layouts<'b>(layouts: &Vec<VertexLayout>, attributes: &'b Vec<Vec<wgpu::VertexAttribute>>) -> (made:
    Vec<wgpu::VertexBufferLayout<'b>>)
    requires
        attributes@.len() == layouts@.len(),
        forall|i: int|
            0 <= i < attributes@.len() ==> (#[trigger] attributes@[i])@ == attribute_plan(
                layouts@[i]@.attributes,
            ),
    ensures
        made@ == vertex_plan(inputs_of(layouts@)),
{
    let ghost plan = vertex_plan(inputs_of(layouts@));
    let mut made: Vec<wgpu::VertexBufferLayout<'b>> = Vec::new();
    let mut i: usize = 0;
    while i < layouts.len()
        invariant
            i <= layouts@.len(),
            attributes@.len() == layouts@.len(),
            forall|j: int|
                0 <= j < attributes@.len() ==> (#[trigger] attributes@[j])@ == attribute_plan(
                    layouts@[j]@.attributes,
                ),
            plan == vertex_plan(inputs_of(layouts@)),
            made@ == plan.take(i as int),
        decreases layouts@.len() - i,
    {
        made.push(vertex_buffer_layout(layouts[i].stride, layouts[i].step, &attributes[i]));
        assert(made@ =~= plan.take(i + 1));
        i += 1;
    }
    assert(plan.take(i as int) =~= plan);
    made
}

/// What a built compute pipeline is, as far as this crate decides it.
pub struct ComputePipelineView {
    /// The diagnostic name.
    pub label: Seq<char>,
    /// The binding sets; set index is position.
    pub groups: Seq<BindingSetView>,
}

/// A compiled compute pipeline with the binding sets it was built with.
pub struct BoundComputePipeline {
    pl: wgpu::ComputePipeline,
    sets: Vec<BindingSet>,
    name: String,
}

impl View for BoundComputePipeline {
    type V = ComputePipelineView;

    closed spec fn view(&self) -> ComputePipelineView {
        ComputePipelineView { label: self.name@, groups: views_of(self.sets@) }
    }
}

impl BoundComputePipeline {
    #[verifier::type_invariant]
    spec fn well_formed(&self) -> bool {
        self.sets@.len() <= u32::MAX
    }

    /// What [`bind`](Self::bind) records.
    pub open spec fn bind_steps(&self) -> Seq<Step> {
        compute_bind_steps(self@)
    }

    /// The device's pipeline.
    pub closed spec fn handle(&self) -> wgpu::ComputePipeline {
        self.pl
    }

    /// The binding sets; set index is position.
    pub closed spec fn bound_sets(&self) -> Seq<BindingSet> {
        self.sets@
    }

    /// The device's bind group of each binding set; set index is position.
    pub open spec fn bind_groups(&self) -> Seq<wgpu::BindGroup> {
        Seq::new(self.bound_sets().len(), |i: int| self.bound_sets()[i].bind_group())
    }

    /// The calls that [`bind`](Self::bind) makes on the device's pass: the
    /// pipeline, then every bind group at its index.
    pub open spec fn bind_calls(&self) -> Seq<ComputeCall> {
        seq![ComputeCall::Pipeline(self.handle())] + Seq::new(
            self.bind_groups().len(),
            |i: int| ComputeCall::BindGroup(i as u32, self.bind_groups()[i]),
        )
    }

    /// The diagnostic name of this pipeline.
    pub fn name(&self) -> (name: &String)
        ensures
            name@ == self@.label,
    {
        &self.name
    }

    /// The binding sets of this pipeline; set index is position.
    pub fn sets(&self) -> (sets: &Vec<BindingSet>)
        ensures
            views_of(sets@) == self@.groups,
    {
        &self.sets
    }

    /// Makes this pipeline current in `scope` and attaches its binding sets.
    pub fn bind<'a>(&'a self, scope: &mut ComputeScope<'a>)
        ensures
            final(scope).steps() == old(scope).steps() + self.bind_steps(),
            final(scope).log() == old(scope).log().told_all(self.bind_calls()),
    {
        proof {
            use_type_invariant(self);
        }
        let ghost before = scope.steps();
        let ghost head = seq![Step::SetPipeline { name: self@.label }];
        let ghost groups = group_steps(self@.groups);
        let ghost told = scope.log();
        let ghost first = seq![ComputeCall::Pipeline(self.handle())];
        let ghost bound = Seq::new(
            self.bind_groups().len(),
            |i: int| ComputeCall::BindGroup(i as u32, self.bind_groups()[i]),
        );
        scope.set_pipeline(&self.pl, Ghost(self.name@));
        proof {
            assert(first.drop_last() =~= Seq::empty());
            assert(told.told_all(first.drop_last()) == told);
            assert(first + bound.take(0) =~= first);
        }
        let mut i: usize = 0;
        while i < self.sets.len()
            invariant
                i <= self.sets@.len(),
                self.sets@.len() <= u32::MAX,
                groups == group_steps(views_of(self.sets@)),
                scope.steps() == before + head + groups.take(i as int),
                bound.len() == self.sets@.len(),
                forall|j: int| 0 <= j < bound.len() ==> bound[j] == ComputeCall::BindGroup(
                    j as u32,
                    self.sets@[j].bind_group(),
                ),
                scope.log() == told.told_all(first + bound.take(i as int)),
            decreases self.sets@.len() - i,
        {
            scope.set_bind_group(i as u32, &self.sets[i]);
            assert(scope.steps() =~= before + head + groups.take(i + 1));
            assert((first + bound.take(i + 1)).drop_last() =~= first + bound.take(i as int));
            i += 1;
        }
        assert(groups.take(i as int) =~= groups);
        assert(bound.take(i as int) =~= bound);
        assert(scope.steps() =~= before + self.bind_steps());
        assert(scope.log() == told.told_all(self.bind_calls()));
    }
}

/// What a compute pipeline builder has collected.
pub struct ComputePlan {
    /// The diagnostic name.
    pub label: Seq<char>,
    /// The binding sets added; set index is position.
    pub groups: Seq<BindingSetView>,
    /// The first refusal by the device, if there was one.
    pub failure: Option<BuildError>,
}

/// Collects the parts of a compute pipeline: one shader module, binding sets
/// and a name.
pub struct ComputePipelineBuilder<'a> {
    sets: Vec<BindingSet>,
    shader: Option<wgpu::ShaderModule>,
    name: &'a str,
    failure: Option<BuildError>,
}

impl<'a> View for ComputePipelineBuilder<'a> {
    type V = ComputePlan;

    closed spec fn view(&self) -> ComputePlan {
        ComputePlan { label: self.name@, groups: views_of(self.sets@), failure: self.failure }
    }
}

impl<'a> ComputePipelineBuilder<'a> {
    #[verifier::type_invariant]
    spec fn well_formed(&self) -> bool {
        &&& self.sets@.len() <= u32::MAX
        &&& self.shader is None ==> self.failure is Some
    }

    /// The device objects collected so far.
    pub closed spec fn parts(&self) -> ComputeParts {
        ComputeParts { sets: self.sets@, shader: self.shader }
    }

    /// A builder named "Compute Pipeline" around the WGSL text `source`,
    /// compiled under `label`.
    ///
    /// If the device refuses the module, that is the builder's failure.
    pub fn new(device: &wgpu::Device, label: &str, source: &str) -> (b: Self)
        ensures
            b@.label == "Compute Pipeline"@,
            b@.groups == Seq::<BindingSetView>::empty(),
            b@.failure matches Some(e) ==> e.stage == BuildStage::ShaderModule,
            b.parts().sets == Seq::<BindingSet>::empty(),
            b@.failure is None ==> b.parts().shader is Some && shader_source(b.parts().shader->0) == (
                label@,
                source@,
            ),
    {
        let b = match staged(BuildStage::ShaderModule, create_shader_module(device, label, source)) {
            Ok(shader) => ComputePipelineBuilder {
                sets: Vec::new(),
                shader: Some(shader),
                name: "Compute Pipeline",
                failure: None,
            },
            Err(e) => ComputePipelineBuilder {
                sets: Vec::new(),
                shader: None,
                name: "Compute Pipeline",
                failure: Some(e),
            },
        };
        assert(b@.groups =~= Seq::<BindingSetView>::empty());
        b
    }

    /// A builder named "Compute Pipeline" around a module compiled
    /// elsewhere.
    pub fn with_module(module: wgpu::ShaderModule) -> (b: Self)
        ensures
            b@ == (ComputePlan { label: "Compute Pipeline"@, groups: Seq::empty(), failure: None }),
            b.parts() == (ComputeParts { sets: Seq::empty(), shader: Some(module) }),
    {
        let b = ComputePipelineBuilder {
            sets: Vec::new(),
            shader: Some(module),
            name: "Compute Pipeline",
            failure: None,
        };
        assert(b@.groups =~= Seq::<BindingSetView>::empty());
        b
    }

    /// Builds `builder` on the device and adds the set behind those already
    /// there.
    ///
    /// After an earlier refusal nothing is asked of the device.  If the
    /// device refuses this set, that becomes the builder's failure.
    pub fn bind_group(self, device: &wgpu::Device, builder: BindgroupBuilder) -> (b: Self)
        requires
            slots_needed(builder.shapes()) <= u32::MAX,
            self@.groups.len() < u32::MAX,
        ensures
            self@.failure is Some ==> b@ == self@,
            self@.failure is None && b@.failure is None ==> b@ == (ComputePlan {
                groups: self@.groups.push(builder.plan()),
                ..self@
            }),
            self@.failure is None && b@.failure is Some ==> b@ == (ComputePlan { failure: b@.failure, ..self@ })
                && (b@.failure->0.stage == BuildStage::BindGroupLayout || b@.failure->0.stage
                == BuildStage::BindGroup),
            self@.failure is Some || b@.failure is Some ==> b.parts() == self.parts(),
            self@.failure is None && b@.failure is None ==> b.parts() == (ComputeParts {
                sets: self.parts().sets.push(b.parts().sets.last()),
                ..self.parts()
            }) && b.parts().sets.last().made_of(builder.bindings()),
    {
        proof {
            use_type_invariant(&self);
        }
        let ComputePipelineBuilder { sets, shader, name, failure } = self;
        let mut sets = sets;
        let mut failure = failure;
        if failure.is_none() {
            match builder.build(device) {
                Ok(set) => {
                    sets.push(set);
                },
                Err(e) => {
                    failure = Some(e);
                },
            }
        }
        let next = ComputePipelineBuilder { sets, shader, name, failure };
        assert(self@.failure is None && next@.failure is None ==> next@.groups =~= self@.groups.push(
            builder.plan(),
        ));
        assert(self@.failure is Some || next@.failure is Some ==> next@.groups =~= self@.groups);
        assert(self@.failure is None && next@.failure is None ==> next.parts().sets =~= self.parts().sets.push(
            next.parts().sets.last(),
        ));
        next
    }

    /// A compute pipeline assembles no primitives: the topology is accepted
    /// and ignored.
    pub fn topo(self, topo: Topology) -> (b: Self)
        ensures
            b@ == self@,
            b.parts() == self.parts(),
    {
        self
    }

    /// Sets the diagnostic name.
    pub fn name(self, name: &'a str) -> (b: Self)
        ensures
            b@ == (ComputePlan { label: name@, ..self@ }),
            b.parts() == self.parts(),
    {
        proof {
            use_type_invariant(&self);
        }
        let mut next = self;
        next.name = name;
        next
    }

    /// A compute pipeline reads no vertex stream: the buffer is accepted and
    /// ignored.
    pub fn vertex_buffer(self, layout: VertexLayout, buffer: Rc<wgpu::Buffer>) -> (b: Self)
        ensures
            b@ == self@,
            b.parts() == self.parts(),
    {
        self
    }

    /// Compiles the pipeline.
    ///
    /// A builder that remembers a refusal returns it.  Otherwise the device
    /// is asked for what [`compute_asked`] says, and the device decides; the
    /// pipeline it builds keeps the builder's binding sets.
    pub fn build(self, device: &wgpu::Device) -> (r: Result<BoundComputePipeline, BuildError>)
        ensures
            self@.failure matches Some(e) ==> r == Err::<BoundComputePipeline, BuildError>(e),
            r matches Ok(p) ==> {
                &&& p@ == (ComputePipelineView { label: self@.label, groups: self@.groups })
                &&& p.bound_sets() == self.parts().sets
                &&& p.bound_sets().len() <= u32::MAX
                &&& compute_asked(self@, self.parts(), compute_request(p.handle()))
            },
            r matches Err(e) ==> self@.failure is None ==> e.stage == BuildStage::PipelineLayout || e.stage
                == BuildStage::Pipeline,
    {
        proof {
            use_type_invariant(&self);
        }
        let ComputePipelineBuilder { sets, shader, name, failure } = self;
        if let Some(e) = failure {
            return Err(e);
        }
        let shader = shader.unwrap();
        let layout = match pipeline_layout(device, "Compute Pipeline Layout", &sets) {
            Ok(layout) => layout,
            Err(e) => {
                return Err(e);
            },
        };
        let made = create_compute_pipeline(device, name, &layout, &shader, COMPUTE_ENTRY);
        match staged(BuildStage::Pipeline, made) {
            Err(e) => Err(e),
            Ok(pl) => Ok(BoundComputePipeline { pl, sets, name: name.to_owned() }),
        }
    }
}

} // verus!
