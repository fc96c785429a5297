//! The passes of a frame.
//!
//! Every pass owns its pipelines and the uniform buffers only it needs, and
//! records itself into the frame's command stream.  What a pass records is a
//! function of the pass and the render context alone.

pub mod blit;
pub mod color;
pub mod integrate;
pub mod ppfx;

use std::ops::Range;
use vstd::prelude::*;

use crate::context::RenderContext;
use crate::stream::{Command, CommandStream};

verus! {

/// A pass that draws.
pub trait RenderStage {
    /// Whether the context holds what this pass needs to draw.
    spec fn ready(&self, ctx: &RenderContext) -> bool;

    /// What one call of [`draw`](Self::draw) adds to the trace.
    spec fn recorded(&self, ctx: &RenderContext, verts: Range<u32>, instances: Range<u32>) -> Seq<Command>;

    /// Records this pass for the vertices `verts` and the instances
    /// `instances`.  Neither range may end before it starts.
    fn draw(&self, ctx: &RenderContext, stream: &mut CommandStream<'_>, verts: Range<u32>, instances: Range<u32>)
        requires
            self.ready(ctx),
            verts.start <= verts.end,
            instances.start <= instances.end,
        ensures
            final(stream).trace() == old(stream).trace() + self.recorded(ctx, verts, instances),
            old(stream).refused() ==> final(stream).refused(),
    ;
}

/// A pass that computes.
pub trait ComputeStage {
    /// What one call of [`exec`](Self::exec) adds to the trace.
    spec fn recorded(&self, ctx: &RenderContext) -> Seq<Command>;

    /// Records this pass.
    fn exec(&self, ctx: &RenderContext, stream: &mut CommandStream<'_>)
        ensures
            final(stream).trace() == old(stream).trace() + self.recorded(ctx),
            old(stream).refused() ==> final(stream).refused(),
    ;
}

} // verus!
