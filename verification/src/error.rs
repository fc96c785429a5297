//! Failures reported while GPU objects are built.

use vstd::prelude::*;

use crate::gpu::error_text;

verus! {

/// The device call that a build failure came from.
#[derive(Clone, Copy, Debug, PartialEq, Eq, Structural)]
pub enum BuildStage {
    Device,
    Surface,
    Buffer,
    Texture,
    Sampler,
    BindGroupLayout,
    BindGroup,
    ShaderModule,
    PipelineLayout,
    Pipeline,
}

impl BuildStage {
    /// Whether this is a stage of building a pipeline from shader sources and
    /// bindings: a shader module, a binding set, the pipeline layout or the
    /// pipeline itself.
    pub open spec fn of_pipeline(self) -> bool {
        self == BuildStage::ShaderModule || self == BuildStage::BindGroupLayout || self == BuildStage::BindGroup
            || self == BuildStage::PipelineLayout || self == BuildStage::Pipeline
    }
}

/// A device rejected something the library asked it to create.
#[derive(Clone, Debug, PartialEq, Eq)]
pub struct BuildError {
    /// The kind of object that was refused.
    pub stage: BuildStage,
    /// The device's own description of the problem.
    pub message: String,
}

/// Why a frame was not drawn.
#[derive(Clone, Debug, PartialEq, Eq)]
pub enum FrameError {
    /// The surface was lost and has to be configured again.
    Lost,
    /// The device is out of memory.
    OutOfMemory,
    /// No image became available in time.
    Timeout,
    /// The surface changed under the swap chain.
    Outdated,
    /// The device refused something that was recorded for the frame.
    Rejected(String),
}

/// Turns the outcome of one device call into the library's result type.
///
/// A value the device produced is passed through untouched; an error is
/// tagged with the `stage` it happened at.
pub fn staged<T>(stage: BuildStage, outcome: Result<T, wgpu::Error>) -> (r: Result<T, BuildError>)
    ensures
        outcome is Ok <==> r is Ok,
        outcome matches Ok(made) ==> r == Ok::<T, BuildError>(made),
        r matches Err(e) ==> e.stage == stage,
{
    match outcome {
        Ok(made) => Ok(made),
        Err(cause) => Err(BuildError { stage, message: error_text(&cause) }),
    }
}

} // verus!
