//! The command stream of one frame.
//!
//! A [`CommandStream`] wraps the device's command encoder and keeps, as ghost
//! state, the list of everything that was recorded through it: its
//! [`trace`](CommandStream::trace).  Passes execute in the order in which the
//! stream was given them, so the order of the trace is the order in which the
//! GPU observes their effects; no other synchronisation is used.
//!
//! Inside a pass every step is tied to the device: a scope's
//! [`log`](ComputeScope::log) is what the device's pass keeps of the calls
//! made on it, and each method says which call it makes.  The device's pass
//! leaves out a call that repeats what is current, so its commands can be
//! fewer than the calls.

use vstd::prelude::*;

use crate::binding::{BindingSet, BindingSetView};
use crate::buffers::UniformBuffer;
use crate::context::Gpu;
use crate::error::FrameError;
use crate::gpu::{
    begin_compute_pass, begin_render_pass, clear_color, color_value, compute_log, compute_set_bind_group,
    compute_set_pipeline, create_command_encoder, dispatch_workgroups, end_compute_pass, end_render_pass,
    error_text, finish_encoder, render_draw, render_log, render_set_bind_group, render_set_pipeline,
    render_set_vertex_buffer, word_bytes, write_buffer, ComputeCall, ComputeLog, RenderCall, RenderLog,
};
use crate::pipelines::{BoundComputePipeline, BoundRenderPipeline};
use crate::target::{Target, TargetView};
use std::rc::Rc;

verus! {

/// One command inside a pass.
pub enum Step {
    /// Makes the pipeline with this diagnostic name current.
    SetPipeline { name: Seq<char> },
    /// Attaches this binding set at set index `index`.
    SetBindGroup { index: u32, set: BindingSetView },
    /// Attaches a vertex buffer at `slot`.
    SetVertexBuffer { slot: u32 },
    /// Starts a grid of `x * y * z` workgroups.
    Dispatch { x: u32, y: u32, z: u32 },
    /// Draws the vertices `first_vertex..end_vertex` for the instances
    /// `first_instance..end_instance`.
    Draw { first_vertex: u32, end_vertex: u32, first_instance: u32, end_instance: u32 },
}

/// The colours a render pass can clear its target to.
#[derive(Clone, Copy, Debug, PartialEq, Eq, Structural)]
pub enum ClearColor {
    /// Black with zero alpha.
    Transparent,
    Black,
    White,
    /// Opaque red.
    Red,
    Green,
    Blue,
}

/// One entry of a frame's trace.
#[allow(inconsistent_fields)]
pub enum Command {
    /// New contents for the uniform buffer with this label.
    Write { buffer: Seq<char>, words: Seq<u32> },
    /// A compute pass: what it did, and the commands the device's pass held
    /// when it ended.
    Compute { label: Seq<char>, steps: Seq<Step>, commands: Seq<ComputeCall> },
    /// A render pass that clears `target` to `clear` and then runs `steps`,
    /// and how the device's pass began with the commands it held when it
    /// ended.
    Render { label: Seq<char>, target: Target, clear: ClearColor, steps: Seq<Step>, commands: Seq<RenderCall> },
}

/// An open compute pass: the device's pass and the steps recorded so far.
pub struct ComputeScope<'a> {
    pass: wgpu::ComputePass<'a>,
    steps: Ghost<Seq<Step>>,
}

impl<'a> ComputeScope<'a> {
    /// The steps recorded in this pass so far.
    pub closed spec fn steps(&self) -> Seq<Step> {
        self.steps@
    }

    /// What the device's pass keeps of the calls made on it so far.
    pub closed spec fn log(&self) -> ComputeLog {
        compute_log(self.pass)
    }

    pub(crate) fn set_pipeline(&mut self, pipeline: &'a wgpu::ComputePipeline, name: Ghost<Seq<char>>)
        ensures
            final(self).steps() == old(self).steps().push(Step::SetPipeline { name: name@ }),
            final(self).log() == old(self).log().told(ComputeCall::Pipeline(*pipeline)),
    {
        compute_set_pipeline(&mut self.pass, pipeline);
        self.steps = Ghost(self.steps@.push(Step::SetPipeline { name: name@ }));
    }

    pub(crate) fn set_bind_group(&mut self, index: u32, set: &'a BindingSet)
        ensures
            final(self).steps() == old(self).steps().push(Step::SetBindGroup { index, set: set@ }),
            final(self).log() == old(self).log().told(ComputeCall::BindGroup(index, set.bind_group())),
    {
        compute_set_bind_group(&mut self.pass, index, set.group());
        self.steps = Ghost(self.steps@.push(Step::SetBindGroup { index, set: set@ }));
    }

    /// Starts a grid of workgroups with the current pipeline.
    pub fn dispatch(&mut self, x: u32, y: u32, z: u32)
        ensures
            final(self).steps() == old(self).steps().push(Step::Dispatch { x, y, z }),
            final(self).log() == old(self).log().told(ComputeCall::Dispatch(x, y, z)),
    {
        dispatch_workgroups(&mut self.pass, x, y, z);
        self.steps = Ghost(self.steps@.push(Step::Dispatch { x, y, z }));
    }

    /// Ends the pass; returns what the device objected to, the steps that
    /// were recorded and the commands that the device's pass held.
    fn finish(self, device: &wgpu::Device) -> (r: (Option<wgpu::Error>, Ghost<Seq<Step>>, Ghost<Seq<ComputeCall>>))
        ensures
            r.1@ == self.steps(),
            r.2@ == self.log().commands,
    {
        let steps = self.steps;
        let calls = Ghost(compute_log(self.pass).commands);
        (end_compute_pass(device, self.pass), steps, calls)
    }
}

/// An open render pass: the device's pass and the steps recorded so far.
pub struct RenderScope<'a> {
    pass: wgpu::RenderPass<'a>,
    steps: Ghost<Seq<Step>>,
}

impl<'a> RenderScope<'a> {
    /// The steps recorded in this pass so far.
    pub closed spec fn steps(&self) -> Seq<Step> {
        self.steps@
    }

    /// What the device's pass keeps of the calls made on it so far, the one
    /// that began it first.
    pub closed spec fn log(&self) -> RenderLog {
        render_log(self.pass)
    }

    pub(crate) fn set_pipeline(&mut self, pipeline: &'a wgpu::RenderPipeline, name: Ghost<Seq<char>>)
        ensures
            final(self).steps() == old(self).steps().push(Step::SetPipeline { name: name@ }),
            final(self).log() == old(self).log().told(RenderCall::Pipeline(*pipeline)),
    {
        render_set_pipeline(&mut self.pass, pipeline);
        self.steps = Ghost(self.steps@.push(Step::SetPipeline { name: name@ }));
    }

    pub(crate) fn set_bind_group(&mut self, index: u32, set: &'a BindingSet)
        ensures
            final(self).steps() == old(self).steps().push(Step::SetBindGroup { index, set: set@ }),
            final(self).log() == old(self).log().told(RenderCall::BindGroup(index, set.bind_group())),
    {
        render_set_bind_group(&mut self.pass, index, set.group());
        self.steps = Ghost(self.steps@.push(Step::SetBindGroup { index, set: set@ }));
    }

    pub(crate) fn set_vertex_buffer(&mut self, slot: u32, buffer: &'a Rc<wgpu::Buffer>)
        ensures
            final(self).steps() == old(self).steps().push(Step::SetVertexBuffer { slot }),
            final(self).log() == old(self).log().told(RenderCall::VertexBuffer(slot, **buffer)),
    {
        render_set_vertex_buffer(&mut self.pass, slot, buffer);
        self.steps = Ghost(self.steps@.push(Step::SetVertexBuffer { slot }));
    }

    /// Draws with the current pipeline.  Neither range may end before it
    /// starts.
    pub fn draw(&mut self, first_vertex: u32, end_vertex: u32, first_instance: u32, end_instance: u32)
        requires
            first_vertex <= end_vertex,
            first_instance <= end_instance,
        ensures
            final(self).steps() == old(self).steps().push(
                Step::Draw { first_vertex, end_vertex, first_instance, end_instance },
            ),
            final(self).log() == old(self).log().told(
                RenderCall::Draw(first_vertex, end_vertex, first_instance, end_instance),
            ),
    {
        render_draw(&mut self.pass, first_vertex..end_vertex, first_instance..end_instance);
        self.steps = Ghost(
            self.steps@.push(Step::Draw { first_vertex, end_vertex, first_instance, end_instance }),
        );
    }

    /// Ends the pass; returns what the device objected to, the steps that
    /// were recorded and the commands that the device's pass held.
    fn finish(self, device: &wgpu::Device) -> (r: (Option<wgpu::Error>, Ghost<Seq<Step>>, Ghost<Seq<RenderCall>>))
        ensures
            r.1@ == self.steps(),
            r.2@ == self.log().commands,
    {
        let steps = self.steps;
        let calls = Ghost(render_log(self.pass).commands);
        (end_render_pass(device, self.pass), steps, calls)
    }
}

/// Calls made one after the other are kept as if made in two runs.
pub proof fn lemma_compute_told_in_runs(log: ComputeLog, first: Seq<ComputeCall>, then: Seq<ComputeCall>)
    ensures
        log.told_all(first + then) == log.told_all(first).told_all(then),
    decreases then.len(),
{
    if then.len() == 0 {
        assert(first + then =~= first);
    } else {
        lemma_compute_told_in_runs(log, first, then.drop_last());
        assert((first + then).drop_last() =~= first + then.drop_last());
        assert((first + then).last() == then.last());
    }
}

/// Calls made one after the other are kept as if made in two runs.
pub proof fn lemma_render_told_in_runs(log: RenderLog, first: Seq<RenderCall>, then: Seq<RenderCall>)
    ensures
        log.told_all(first + then) == log.told_all(first).told_all(then),
    decreases then.len(),
{
    if then.len() == 0 {
        assert(first + then =~= first);
    } else {
        lemma_render_told_in_runs(log, first, then.drop_last());
        assert((first + then).drop_last() =~= first + then.drop_last());
        assert((first + then).last() == then.last());
    }
}

/// The commands that a compute pass holds after these calls, and no others,
/// were made on it.
pub open spec fn compute_commands(calls: Seq<ComputeCall>) -> Seq<ComputeCall> {
    ComputeLog::fresh().told_all(calls).commands
}

/// The commands that a render pass holds after these calls, and no others,
/// were made on it; the first of them is the call that began it.
pub open spec fn render_commands(calls: Seq<RenderCall>) -> Seq<RenderCall> {
    RenderLog::fresh().told_all(calls).commands
}

/// Binding a pipeline in a compute pass that has only begun leaves nothing
/// out: after the pipeline and its first `k` bind groups the pass holds one
/// command for each call, and remembers bind groups below index `k` only.
proof fn lemma_compute_bind_kept(pipeline: &BoundComputePipeline, k: int)
    requires
        pipeline.bound_sets().len() <= u32::MAX,
        0 <= k <= pipeline.bound_sets().len(),
    ensures
        ({
            let calls = pipeline.bind_calls().take(k + 1);
            let log = ComputeLog::fresh().told_all(calls);
            &&& log.commands == calls
            &&& forall|j: u32| log.groups.contains_key(j) ==> j < k
        }),
    decreases k,
{
    let calls = pipeline.bind_calls().take(k + 1);
    if k == 0 {
        assert(calls.drop_last() =~= Seq::empty());
        assert(ComputeLog::fresh().told_all(calls.drop_last()) == ComputeLog::fresh());
        assert(ComputeLog::fresh().told_all(calls).commands =~= calls);
    } else {
        lemma_compute_bind_kept(pipeline, k - 1);
        assert(calls.drop_last() =~= pipeline.bind_calls().take(k));
        assert(calls.last() == ComputeCall::BindGroup((k - 1) as u32, pipeline.bind_groups()[k - 1]));
        assert(ComputeLog::fresh().told_all(calls).commands =~= calls);
    }
}

/// The first job of a compute pass is kept whole: the device's pass holds
/// one command for each of its calls, in their order.
pub proof fn lemma_first_compute_job_kept(job: ComputeJob)
    requires
        job.pipeline.bound_sets().len() <= u32::MAX,
    ensures
        compute_commands(job.calls()) == job.calls(),
{
    let bound = job.pipeline.bind_calls();
    let sets = job.pipeline.bound_sets().len() as int;
    lemma_compute_bind_kept(job.pipeline, sets);
    assert(bound.take(sets + 1) =~= bound);
    assert(job.calls().drop_last() =~= bound);
    assert(compute_commands(job.calls()) =~= job.calls());
}

/// Calls that set neither a pipeline nor a bind group are all kept.
proof fn lemma_render_plain_kept(log: RenderLog, calls: Seq<RenderCall>)
    requires
        forall|i: int| 0 <= i < calls.len() ==> !(#[trigger] calls[i] is Pipeline) && !(calls[i] is BindGroup),
    ensures
        log.told_all(calls).commands == log.commands + calls,
        log.told_all(calls).pipeline == log.pipeline,
        log.told_all(calls).groups == log.groups,
    decreases calls.len(),
{
    if calls.len() == 0 {
        assert(log.commands + calls =~= log.commands);
    } else {
        lemma_render_plain_kept(log, calls.drop_last());
        assert(!(calls[calls.len() - 1] is Pipeline));
        assert(log.told_all(calls).commands =~= log.commands + calls);
    }
}

/// Binding a pipeline in a render pass that has only begun leaves nothing
/// out: after the call that began it, the pipeline and its first `k` bind
/// groups the pass holds one command for each call.
proof fn lemma_render_bind_kept(begin: RenderCall, pipeline: &BoundRenderPipeline, k: int)
    requires
        begin is Begin,
        pipeline.bound_sets().len() <= u32::MAX,
        0 <= k <= pipeline.bound_sets().len(),
    ensures
        ({
            let calls = seq![begin] + pipeline.bind_calls().take(k + 1);
            let log = RenderLog::fresh().told_all(calls);
            &&& log.commands == calls
            &&& forall|j: u32| log.groups.contains_key(j) ==> j < k
        }),
    decreases k,
{
    let calls = seq![begin] + pipeline.bind_calls().take(k + 1);
    if k == 0 {
        assert(calls.drop_last() =~= seq![begin]);
        assert(seq![begin].drop_last() =~= Seq::empty());
        assert(RenderLog::fresh().told_all(seq![begin].drop_last()) == RenderLog::fresh());
        assert(RenderLog::fresh().told_all(seq![begin]).commands =~= seq![begin]);
        assert(RenderLog::fresh().told_all(calls).commands =~= calls);
    } else {
        lemma_render_bind_kept(begin, pipeline, k - 1);
        assert(calls.drop_last() =~= seq![begin] + pipeline.bind_calls().take(k));
        assert(calls.last() == RenderCall::BindGroup((k - 1) as u32, pipeline.bind_groups()[k - 1]));
        assert(RenderLog::fresh().told_all(calls).commands =~= calls);
    }
}

/// The first job of a render pass is kept whole: after the call that began
/// it, the device's pass holds one command for each call of the job, in
/// their order.
pub proof fn lemma_first_draw_job_kept(begin: RenderCall, job: DrawJob)
    requires
        begin is Begin,
        job.pipeline.bound_sets().len() <= u32::MAX,
    ensures
        render_commands(seq![begin] + job.calls()) == seq![begin] + job.calls(),
{
    let sets = job.pipeline.bound_sets().len() as int;
    let bound = job.pipeline.bind_calls();
    let head = seq![begin] + bound.take(sets + 1);
    let rest = bound.skip(sets + 1).push(
        RenderCall::Draw(job.vertices.0, job.vertices.1, job.instances.0, job.instances.1),
    );
    lemma_render_bind_kept(begin, job.pipeline, sets);
    lemma_render_plain_kept(RenderLog::fresh().told_all(head), rest);
    lemma_render_told_in_runs(RenderLog::fresh(), head, rest);
    assert(head + rest =~= seq![begin] + job.calls());
}

/// One dispatch of a compute pass: the pipeline to bind and the grid to
/// start.
pub struct ComputeJob<'a> {
    pub pipeline: &'a BoundComputePipeline,
    pub grid: (u32, u32, u32),
}

impl<'a> ComputeJob<'a> {
    /// What this job records: the pipeline's binding steps, then the
    /// dispatch.
    pub open spec fn steps(self) -> Seq<Step> {
        self.pipeline.bind_steps().push(Step::Dispatch { x: self.grid.0, y: self.grid.1, z: self.grid.2 })
    }

    /// The calls this job makes on the device's pass.
    pub open spec fn calls(self) -> Seq<ComputeCall> {
        self.pipeline.bind_calls().push(ComputeCall::Dispatch(self.grid.0, self.grid.1, self.grid.2))
    }
}

/// What a sequence of compute jobs records, job after job.
pub open spec fn compute_steps(jobs: Seq<ComputeJob>) -> Seq<Step>
    decreases jobs.len(),
{
    if jobs.len() == 0 {
        Seq::empty()
    } else {
        compute_steps(jobs.drop_last()) + jobs.last().steps()
    }
}

/// The calls that a sequence of compute jobs makes on the device's pass, job
/// after job.
pub open spec fn compute_job_calls(jobs: Seq<ComputeJob>) -> Seq<ComputeCall>
    decreases jobs.len(),
{
    if jobs.len() == 0 {
        Seq::empty()
    } else {
        compute_job_calls(jobs.drop_last()) + jobs.last().calls()
    }
}

/// One draw call of a render pass: the pipeline to bind, and the vertex and
/// instance ranges (first, end) to draw.
pub struct DrawJob<'a> {
    pub pipeline: &'a BoundRenderPipeline,
    pub vertices: (u32, u32),
    pub instances: (u32, u32),
}

impl<'a> DrawJob<'a> {
    /// Whether neither range ends before it starts.
    pub open spec fn ordered(self) -> bool {
        self.vertices.0 <= self.vertices.1 && self.instances.0 <= self.instances.1
    }

    /// What this job records: the pipeline's binding steps, then the draw.
    pub open spec fn steps(self) -> Seq<Step> {
        self.pipeline.bind_steps().push(
            Step::Draw {
                first_vertex: self.vertices.0,
                end_vertex: self.vertices.1,
                first_instance: self.instances.0,
                end_instance: self.instances.1,
            },
        )
    }

    /// The calls this job makes on the device's pass.
    pub open spec fn calls(self) -> Seq<RenderCall> {
        self.pipeline.bind_calls().push(
            RenderCall::Draw(self.vertices.0, self.vertices.1, self.instances.0, self.instances.1),
        )
    }
}

/// What a sequence of draw jobs records, job after job.
pub open spec fn draw_steps(jobs: Seq<DrawJob>) -> Seq<Step>
    decreases jobs.len(),
{
    if jobs.len() == 0 {
        Seq::empty()
    } else {
        draw_steps(jobs.drop_last()) + jobs.last().steps()
    }
}

/// The calls that a sequence of draw jobs makes on the device's pass, job
/// after job.
pub open spec fn draw_job_calls(jobs: Seq<DrawJob>) -> Seq<RenderCall>
    decreases jobs.len(),
{
    if jobs.len() == 0 {
        Seq::empty()
    } else {
        draw_job_calls(jobs.drop_last()) + jobs.last().calls()
    }
}

/// A frame that is ready for the queue: the finished command buffer and the
/// trace of the stream it was finished from.
pub struct Frame {
    commands: wgpu::CommandBuffer,
    trace: Ghost<Seq<Command>>,
}

impl Frame {
    /// Everything that was recorded for this frame, oldest first.
    pub closed spec fn trace(&self) -> Seq<Command> {
        self.trace@
    }

    /// The finished command buffer.
    pub closed spec fn commands(&self) -> wgpu::CommandBuffer {
        self.commands
    }

    /// Gives up the command buffer, to be submitted.
    pub fn into_commands(self) -> (commands: wgpu::CommandBuffer)
        ensures
            commands == self.commands(),
    {
        self.commands
    }
}

/// The commands of one frame, in recording order.
pub struct CommandStream<'d> {
    gpu: &'d Gpu,
    encoder: wgpu::CommandEncoder,
    trace: Ghost<Seq<Command>>,
    refused: Option<String>,
}

impl<'d> CommandStream<'d> {
    /// Everything recorded through this stream, oldest first.
    pub closed spec fn trace(&self) -> Seq<Command> {
        self.trace@
    }

    /// Whether something recorded so far was refused.  A refused stream is
    /// never finished.
    pub closed spec fn refused(&self) -> bool {
        self.refused is Some
    }

    /// Opens an empty stream on the device of `gpu`.  A device that objects
    /// to a new encoder gives a stream that is refused from the start.
    pub fn new(gpu: &'d Gpu, label: &str) -> (stream: Self)
        ensures
            stream.trace() == Seq::<Command>::empty(),
    {
        let (encoder, refusal) = create_command_encoder(gpu.device(), label);
        let mut stream = CommandStream { gpu, encoder, trace: Ghost(Seq::empty()), refused: None };
        stream.note(refusal);
        stream
    }

    /// Whether something recorded so far was refused.
    pub fn is_refused(&self) -> (b: bool)
        ensures
            b == self.refused(),
    {
        self.refused.is_some()
    }

    /// Remembers the first refusal.
    fn note(&mut self, refusal: Option<wgpu::Error>)
        ensures
            final(self).trace() == old(self).trace(),
            final(self).refused() == (old(self).refused() || refusal is Some),
    {
        if self.refused.is_none() {
            if let Some(cause) = refusal {
                self.refused = Some(error_text(&cause));
            }
        }
    }

    /// Replaces the contents of `buffer` with `words`, ahead of every pass
    /// recorded after this call.
    ///
    /// The write is made only if `words` fills the buffer exactly; otherwise
    /// nothing is written and the stream counts as refused.
    pub fn write(&mut self, buffer: &UniformBuffer, words: &[u32])
        ensures
            words@.len() == buffer.words() ==> final(self).trace() == old(self).trace().push(
                Command::Write { buffer: buffer.label(), words: words@ },
            ),
            words@.len() != buffer.words() ==> final(self).trace() == old(self).trace()
                && final(self).refused(),
            old(self).refused() ==> final(self).refused(),
    {
        if words.len() == buffer.len() {
            let refusal = write_buffer(self.gpu.device(), self.gpu.queue(), buffer.buffer(), 0, word_bytes(words));
            self.trace = Ghost(self.trace@.push(Command::Write { buffer: buffer.label(), words: words@ }));
            self.note(refusal);
        } else if self.refused.is_none() {
            self.refused = Some("uniform contents do not fill the buffer".to_owned());
        }
    }

    /// Records one compute pass that runs `jobs` in order: the calls of the
    /// jobs, and no others, are made on the device's pass before it ends.
    pub fn compute_pass(&mut self, label: &str, jobs: &Vec<ComputeJob<'_>>)
        ensures
            final(self).trace() == old(self).trace().push(
                Command::Compute {
                    label: label@,
                    steps: compute_steps(jobs@),
                    commands: compute_commands(compute_job_calls(jobs@)),
                },
            ),
            old(self).refused() ==> final(self).refused(),
    {
        let (refusal, steps, calls) = {
            let mut scope = ComputeScope {
                pass: begin_compute_pass(&mut self.encoder, label),
                steps: Ghost(Seq::empty()),
            };
            let mut i: usize = 0;
            while i < jobs.len()
                invariant
                    i <= jobs@.len(),
                    scope.steps() == compute_steps(jobs@.take(i as int)),
                    scope.log() == ComputeLog::fresh().told_all(compute_job_calls(jobs@.take(i as int))),
                decreases jobs@.len() - i,
            {
                let job = &jobs[i];
                job.pipeline.bind(&mut scope);
                scope.dispatch(job.grid.0, job.grid.1, job.grid.2);
                proof {
                    assert(jobs@.take(i + 1).drop_last() =~= jobs@.take(i as int));
                    assert(jobs@.take(i + 1).last() == jobs@[i as int]);
                    let earlier = compute_job_calls(jobs@.take(i as int));
                    assert(jobs@[i as int].calls().drop_last() =~= job.pipeline.bind_calls());
                    lemma_compute_told_in_runs(ComputeLog::fresh(), earlier, jobs@[i as int].calls());
                }
                i += 1;
            }
            proof {
                assert(jobs@.take(i as int) =~= jobs@);
            }
            scope.finish(self.gpu.device())
        };
        self.trace = Ghost(self.trace@.push(Command::Compute { label: label@, steps: steps@, commands: calls@ }));
        self.note(refusal);
    }

    /// Records one render pass that clears `target` to `clear`, runs `jobs`
    /// in order and stores what they draw: the device's pass is begun on the
    /// target's view with the clear colour, and the calls of the jobs, and no
    /// others, are made on it before it ends.
    pub fn render_pass(&mut self, label: &str, target: &TargetView, clear: ClearColor, jobs: &Vec<DrawJob<'_>>)
        requires
            forall|i: int| 0 <= i < jobs@.len() ==> (#[trigger] jobs@[i]).ordered(),
        ensures
            final(self).trace() == old(self).trace().push(
                Command::Render {
                    label: label@,
                    target: target.target(),
                    clear,
                    steps: draw_steps(jobs@),
                    commands: render_commands(
                        seq![RenderCall::Begin(target.texture_view(), color_value(clear), true)] + draw_job_calls(
                            jobs@,
                        ),
                    ),
                },
            ),
            old(self).refused() ==> final(self).refused(),
    {
        let ghost begun = seq![RenderCall::Begin(target.texture_view(), color_value(clear), true)];
        let (refusal, steps, calls) = {
            let mut scope = RenderScope {
                pass: begin_render_pass(&mut self.encoder, label, target.view(), clear_color(clear), true),
                steps: Ghost(Seq::empty()),
            };
            proof {
                assert(begun + draw_job_calls(jobs@.take(0)) =~= begun);
                assert(begun.drop_last() =~= Seq::empty());
                assert(RenderLog::fresh().told_all(begun.drop_last()) == RenderLog::fresh());
            }
            let mut i: usize = 0;
            while i < jobs.len()
                invariant
                    i <= jobs@.len(),
                    forall|k: int| 0 <= k < jobs@.len() ==> (#[trigger] jobs@[k]).ordered(),
                    scope.steps() == draw_steps(jobs@.take(i as int)),
                    scope.log() == RenderLog::fresh().told_all(begun + draw_job_calls(jobs@.take(i as int))),
                decreases jobs@.len() - i,
            {
                let job = &jobs[i];
                assert(jobs@[i as int].ordered());
                job.pipeline.bind(&mut scope);
                scope.draw(job.vertices.0, job.vertices.1, job.instances.0, job.instances.1);
                proof {
                    assert(jobs@.take(i + 1).drop_last() =~= jobs@.take(i as int));
                    assert(jobs@.take(i + 1).last() == jobs@[i as int]);
                    let earlier = begun + draw_job_calls(jobs@.take(i as int));
                    assert(jobs@[i as int].calls().drop_last() =~= job.pipeline.bind_calls());
                    lemma_render_told_in_runs(RenderLog::fresh(), earlier, jobs@[i as int].calls());
                    assert(earlier + jobs@[i as int].calls() =~= begun + draw_job_calls(jobs@.take(i + 1)));
                }
                i += 1;
            }
            proof {
                assert(jobs@.take(i as int) =~= jobs@);
            }
            scope.finish(self.gpu.device())
        };
        self.trace = Ghost(
            self.trace@.push(
                Command::Render { label: label@, target: target.target(), clear, steps: steps@, commands: calls@ },
            ),
        );
        self.note(refusal);
    }

    /// Closes the stream.
    ///
    /// A stream in which something was refused is dropped instead, and the
    /// first refusal is returned; so is a stream the device will not close.
    /// Otherwise the frame is ready for the queue, and its trace is the
    /// stream's.
    pub fn finish(self) -> (r: Result<Frame, FrameError>)
        ensures
            self.refused() ==> r is Err,
            r matches Ok(frame) ==> frame.trace() == self.trace(),
            r matches Err(e) ==> e is Rejected,
    {
        let CommandStream { gpu, encoder, trace, refused } = self;
        match refused {
            Some(message) => Err(FrameError::Rejected(message)),
            None => {
                match finish_encoder(gpu.device(), encoder) {
                    Err(cause) => Err(FrameError::Rejected(error_text(&cause))),
                    Ok(commands) => Ok(Frame { commands, trace }),
                }
            },
        }
    }
}

} // verus!
