//! Pass orchestration and resource binding for a GPU particle simulation.
//!
//! The crate describes GPU pipelines (shader stages, bound resources, vertex
//! layouts), builds them on a `wgpu` device, and records a fixed sequence of
//! passes per frame: integrate, colour, bloom, blit.  Every decision the
//! library takes (slot numbers, set indices, workgroup counts, pass order) is
//! stated in a contract and proved.
//!
//! * [`context`] holds the device with its queue and the state that the
//!   passes share;
//! * [`binding`] numbers the slots of a binding set;
//! * [`pipelines`] builds render and compute pipelines;
//! * [`stream`] records a frame and keeps its trace;
//! * [`pass`] holds the four passes, [`app`] the orchestrator that runs them;
//! * [`events`] says what the event loop has to do;
//! * [`gpu`] is the boundary to `wgpu`: the only part that is not proved.
//!
//! Floating-point work (the camera, where the initial particles are) is left
//! to the caller, who hands it over as bit patterns.  So are the window and
//! its surface: the caller acquires the image of each frame, and submits and
//! presents the frame that the library hands back.

pub mod error;
pub mod gpu;
pub mod target;
pub mod binding;
pub mod vertex;
pub mod particle;
pub mod buffers;
pub mod pipelines;
pub mod stream;
pub mod ieee;
pub mod context;
pub mod pass;
pub mod app;
pub mod events;
