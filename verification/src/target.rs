//! The textures a frame is drawn through.

use vstd::prelude::*;

verus! {

/// The texture that a view looks at.
#[derive(Clone, Copy, Debug, PartialEq, Eq, Structural)]
pub enum Target {
    /// The intermediate colour target.
    Color,
    /// The second texture of the bloom ping-pong pair.
    PingPong,
    /// The image that will be presented.
    Surface,
}

/// A texture view and the texture it belongs to.
pub struct TargetView {
    view: wgpu::TextureView,
    target: Target,
}

impl TargetView {
    /// The texture this view looks at.
    pub closed spec fn target(&self) -> Target {
        self.target
    }

    /// The device's view.
    pub closed spec fn texture_view(&self) -> wgpu::TextureView {
        self.view
    }

    /// Names `view` as a view of `target`.
    pub fn new(view: wgpu::TextureView, target: Target) -> (v: TargetView)
        ensures
            v.target() == target,
            v.texture_view() == view,
    {
        TargetView { view, target }
    }

    /// The texture this view looks at.
    pub fn which(&self) -> (t: Target)
        ensures
            t == self.target(),
    {
        self.target
    }

    /// The device's view.
    pub fn view(&self) -> (view: &wgpu::TextureView)
        ensures
            *view == self.texture_view(),
    {
        &self.view
    }
}

} // verus!
