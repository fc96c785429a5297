//! The integration pass: one step of the simulation.
//!
//! The shader reads position, velocity and mass of every particle and writes
//! back new positions and velocities.  The pass starts enough workgroups of
//! [`WORKGROUP_SIZE`] particles to cover every particle; the shader leaves
//! the invocations of the last group that lie behind the last particle idle.

use std::rc::Rc;
use vstd::prelude::*;

use crate::binding::{
    device_plan, group_plan, layout_of, lemma_group_push, lemma_layout_push, shapes_of, Binding,
    BindgroupBuilder, BindingKind, BindingResource, BindingSetView, BindingShape, SlotEntry, SlotType,
    TextureUse, Visibility,
};
use crate::buffers::{Buffers, UniformBuffer};
use crate::context::RenderContext;
use crate::error::{BuildError, BuildStage};
use crate::gpu::{
    compute_request, group_request, layout_entries, pipeline_sets, shader_source, ComputeCall, GroupEntry,
};
use crate::pass::ComputeStage;
use crate::pipelines::{
    compute_bind_steps, group_layouts, BoundComputePipeline, ComputePipelineBuilder, ComputePipelineView,
    COMPUTE_ENTRY,
};
use crate::stream::{
    compute_commands, compute_job_calls, compute_steps, lemma_first_compute_job_kept, Command, CommandStream,
    ComputeJob, Step,
};

verus! {

/// The number of particles that one workgroup integrates.
pub const WORKGROUP_SIZE: u32 = 64;

/// The number of workgroups started for `particles` particles:
/// `particles / 64`, rounded up.
pub open spec fn workgroups(particles: nat) -> nat {
    (particles + 63) / 64
}

/// The workgroups cover every particle, and no workgroup is wholly behind
/// the last particle.
pub proof fn lemma_workgroups_cover(particles: nat)
    ensures
        particles <= workgroups(particles) * 64 < particles + 64,
{
}

/// For a positive particle count that is a multiple of the workgroup size,
/// exactly `particles / 64` workgroups are started, and together they cover
/// every particle once.
pub proof fn lemma_workgroups_exact(particles: nat)
    requires
        particles > 0,
        particles % 64 == 0,
    ensures
        workgroups(particles) == particles / 64,
        workgroups(particles) * 64 == particles,
        workgroups(particles) > 0,
{
}

/// The binding set of the integration shader: the particle buffer for
/// reading and writing at slot 0, the particle count at slot 1.
pub open spec fn integrate_layout() -> Seq<SlotEntry> {
    seq![
        SlotEntry { binding: 0, vis: Visibility::compute_only(), ty: SlotType::Storage { read_only: false } },
        SlotEntry { binding: 1, vis: Visibility::compute_only(), ty: SlotType::Uniform },
    ]
}

/// The binding set of the integration pass.  It offers no texture.
pub open spec fn integrate_set() -> BindingSetView {
    BindingSetView { layout: integrate_layout(), textures: seq![None, None] }
}

/// Integrates the particles in place.
pub struct IntegratePass {
    update_positions: BoundComputePipeline,
    /// The particle buffer; held so that it lives as long as the pass.
    stars: Rc<wgpu::Buffer>,
    particles: u32,
    /// The uniform that tells the shader the particle count.
    count: UniformBuffer,
}

impl IntegratePass {
    /// The number of particles in the buffer this pass integrates.
    pub closed spec fn particles(&self) -> nat {
        self.particles as nat
    }

    /// The pipeline of this pass with its binding set.
    pub closed spec fn program(&self) -> BoundComputePipeline {
        self.update_positions
    }

    /// The pipeline of this pass.
    pub open spec fn pipeline(&self) -> ComputePipelineView {
        self.program()@
    }

    /// The particle buffer this pass integrates.
    pub closed spec fn stars(&self) -> wgpu::Buffer {
        *self.stars
    }

    /// The uniform that tells the shader the particle count.
    pub closed spec fn count(&self) -> UniformBuffer {
        self.count
    }

    /// The steps of the one compute pass that [`exec`](ComputeStage::exec)
    /// records: bind the pipeline, then start the workgroups in a row.
    pub open spec fn steps(&self) -> Seq<Step> {
        compute_bind_steps(self.pipeline()).push(
            Step::Dispatch { x: workgroups(self.particles()) as u32, y: 1, z: 1 },
        )
    }

    /// The calls that [`exec`](ComputeStage::exec) makes on the device's
    /// pass.
    pub open spec fn calls(&self) -> Seq<ComputeCall> {
        self.program().bind_calls().push(ComputeCall::Dispatch(workgroups(self.particles()) as u32, 1, 1))
    }

    /// Whether the device objects of this pass are what [`new`](Self::new)
    /// asks the device for: one binding set that puts the whole particle
    /// buffer at slot 0 and the count uniform at slot 1, and a pipeline of
    /// that set and of the shader compiled from `shader`.
    pub open spec fn wired(&self, shader: Seq<char>) -> bool {
        let sets = self.program().bound_sets();
        let request = compute_request(self.program().handle());
        &&& sets.len() == 1
        &&& layout_entries(sets[0].bind_group_layout()) == device_plan(integrate_layout()).to_multiset()
        &&& group_request(sets[0].bind_group()) == (
            sets[0].bind_group_layout(),
            seq![GroupEntry::Buffer(0, self.stars()), GroupEntry::Buffer(1, self.count().handle())],
        )
        &&& request.label == "Update Positions Pipeline"@
        &&& pipeline_sets(request.layout) == seq![sets[0].bind_group_layout()]
        &&& shader_source(request.module) == ("Integrate"@, shader)
        &&& request.entry == COMPUTE_ENTRY@
    }

    /// Builds the pass for the particles in `bufs`; `shader` is the WGSL
    /// source of the integration shader.
    ///
    /// The device alone decides whether the pass can be built.
    pub fn new(ctx: &RenderContext, bufs: &Buffers, shader: &str) -> (r: Result<IntegratePass, BuildError>)
        ensures
            r matches Ok(pass) ==> {
                &&& pass.particles() == bufs.particles
                &&& pass.stars() == *bufs.star_buffer
                &&& pass.count().label() == "Part Count Uniform"@
                &&& pass.count().initial() == seq![bufs.particles]
                &&& pass.pipeline() == (ComputePipelineView {
                    label: "Update Positions Pipeline"@,
                    groups: seq![integrate_set()],
                })
                &&& pass.wired(shader@)
            },
            r matches Err(e) ==> e.stage == BuildStage::Buffer || e.stage.of_pipeline(),
    {
        let mut words: Vec<u32> = Vec::new();
        words.push(bufs.particles);
        assert(words@ =~= seq![bufs.particles]);
        let count = match UniformBuffer::new(
            &ctx.gpu,
            "Part Count Uniform",
            words.as_slice(),
        ) {
            Ok(buffer) => buffer,
            Err(e) => {
                return Err(e);
            },
        };
        let particles = Binding { vis: Visibility::compute(), res: BindingResource::Buffer(&*bufs.star_buffer, false) };
        let total = Binding { vis: Visibility::compute(), res: BindingResource::Uniform(count.buffer()) };
        let ghost first = particles;
        let ghost second = total;
        let bindings = BindgroupBuilder::new().resource(particles).resource(total);
        let ghost bound = bindings.bindings();
        proof {
            lemma_layout_push(Seq::empty(), first.shape());
            lemma_layout_push(Seq::empty().push(first.shape()), second.shape());
            lemma_group_push(Seq::empty(), first);
            lemma_group_push(Seq::empty().push(first), second);
            assert(bound =~= Seq::empty().push(first).push(second));
            assert(shapes_of(Seq::<Binding>::empty()) =~= Seq::empty());
            assert(layout_of(bindings.shapes()) =~= integrate_layout());
            assert(bindings.textures() =~= seq![None::<TextureUse>, None]);
            assert(group_plan(bound) =~= seq![
                GroupEntry::Buffer(0, *bufs.star_buffer),
                GroupEntry::Buffer(1, count.handle()),
            ]);
        }
        let started = ComputePipelineBuilder::new(ctx.gpu.device(), "Integrate", shader);
        let with_set = started.bind_group(ctx.gpu.device(), bindings);
        let named = with_set.name("Update Positions Pipeline");
        let ghost parts = named.parts();
        match named.build(ctx.gpu.device()) {
            Err(e) => Err(e),
            Ok(update_positions) => {
                proof {
                    assert(update_positions@.groups =~= seq![integrate_set()]);
                    assert(parts.sets =~= seq![parts.sets.last()]);
                    assert(group_layouts(parts.sets) =~= seq![parts.sets[0].bind_group_layout()]);
                }
                Ok(
                    IntegratePass {
                        update_positions,
                        stars: bufs.star_buffer.clone(),
                        particles: bufs.particles,
                        count,
                    },
                )
            },
        }
    }

    /// The number of workgroups this pass starts.
    pub fn workgroup_count(&self) -> (n: u32)
        ensures
            n == workgroups(self.particles()),
    {
        let whole: u32 = self.particles / WORKGROUP_SIZE;
        if self.particles % WORKGROUP_SIZE == 0 {
            whole
        } else {
            whole + 1
        }
    }
}

/// For a pass as [`IntegratePass::new`] builds it, the recorded steps are
/// exactly: the pipeline, its binding set at index 0, and one dispatch of
/// [`workgroups`] of the particle count in a row.
pub proof fn lemma_integrate_steps(pass: &IntegratePass)
    requires
        pass.pipeline() == (ComputePipelineView {
            label: "Update Positions Pipeline"@,
            groups: seq![integrate_set()],
        }),
    ensures
        pass.steps() == seq![
            Step::SetPipeline { name: "Update Positions Pipeline"@ },
            Step::SetBindGroup { index: 0, set: integrate_set() },
            Step::Dispatch { x: workgroups(pass.particles()) as u32, y: 1, z: 1 },
        ],
{
    assert(pass.steps() =~= seq![
        Step::SetPipeline { name: "Update Positions Pipeline"@ },
        Step::SetBindGroup { index: 0, set: integrate_set() },
        Step::Dispatch { x: workgroups(pass.particles()) as u32, y: 1, z: 1 },
    ]);
}

/// For a pass as [`IntegratePass::new`] builds it, the device's pass holds
/// one command for each call, and the calls are exactly: the pipeline, its
/// bind group at index 0, and one dispatch of [`workgroups`] of the particle
/// count in a row.
pub proof fn lemma_integrate_commands(pass: &IntegratePass, shader: Seq<char>)
    requires
        pass.wired(shader),
    ensures
        compute_commands(pass.calls()) == pass.calls(),
        pass.calls() == seq![
            ComputeCall::Pipeline(pass.program().handle()),
            ComputeCall::BindGroup(0, pass.program().bound_sets()[0].bind_group()),
            ComputeCall::Dispatch(workgroups(pass.particles()) as u32, 1, 1),
        ],
{
    let program = pass.program();
    let job = ComputeJob { pipeline: &program, grid: (workgroups(pass.particles()) as u32, 1, 1) };
    lemma_first_compute_job_kept(job);
    assert(job.calls() == pass.calls());
    assert(pass.calls() =~= seq![
        ComputeCall::Pipeline(pass.program().handle()),
        ComputeCall::BindGroup(0, pass.program().bound_sets()[0].bind_group()),
        ComputeCall::Dispatch(workgroups(pass.particles()) as u32, 1, 1),
    ]);
}

impl ComputeStage for IntegratePass {
    /// One compute pass that binds the pipeline and starts one workgroup
    /// for every 64 particles, the last one for what is left, with the
    /// commands that the device's pass holds after those calls.
    open spec fn recorded(&self, ctx: &RenderContext) -> Seq<Command> {
        seq![
            Command::Compute {
                label: "Integrate Compute Pass"@,
                steps: self.steps(),
                commands: compute_commands(self.calls()),
            },
        ]
    }

    fn exec(&self, ctx: &RenderContext, stream: &mut CommandStream<'_>) {
        let mut jobs: Vec<ComputeJob> = Vec::new();
        jobs.push(ComputeJob { pipeline: &self.update_positions, grid: (self.workgroup_count(), 1, 1) });
        proof {
            reveal_with_fuel(compute_steps, 2);
            assert(jobs@.drop_last() =~= Seq::empty());
            reveal_with_fuel(compute_job_calls, 2);
            assert(compute_steps(jobs@) =~= self.steps());
            assert(compute_job_calls(jobs@) =~= self.calls());
        }
        stream.compute_pass("Integrate Compute Pass", &jobs);
        assert(final(stream).trace() =~= old(stream).trace() + self.recorded(ctx));
    }
}

} // verus!
