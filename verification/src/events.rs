//! What the event loop decides.
//!
//! The loop itself belongs to the window system.  It hands every event to
//! [`App::handle`], does what the answer asks for, and after a frame asks
//! [`after_frame`] how to go on.

use vstd::prelude::*;

use crate::app::App;
use crate::context::{RenderContext, SurfaceSettings};
use crate::error::FrameError;

verus! {

/// The keys the simulation listens to.
#[derive(Clone, Copy, Debug, PartialEq, Eq, Structural)]
pub enum Key {
    /// Zoom in.
    W,
    /// Zoom out.
    S,
    /// Any other key.
    Other,
}

/// What the window system reports.
#[derive(Clone, Copy, Debug, PartialEq, Eq, Structural)]
pub enum Event {
    /// A key went down.
    KeyPressed(Key),
    /// The window has a new size, width then height.
    Resized(u32, u32),
    /// The window wants to be drawn.
    RedrawRequested,
    /// All pending events have been delivered.
    MainEventsCleared,
    /// Anything else.
    Other,
}

/// What the event loop has to do after an event.
#[derive(Clone, Copy, Debug, PartialEq, Eq, Structural)]
pub enum Action {
    Nothing,
    /// Configure the surface as [`App::configuration`] says.
    Configure,
    /// Draw a frame.
    Draw,
    /// Ask the window for a redraw, so that frames keep coming.
    RequestRedraw,
}

/// How the event loop goes on after a frame.
#[derive(Clone, Copy, Debug, PartialEq, Eq, Structural)]
pub enum Control {
    /// Go on; a frame that could not be drawn is retried with the next tick.
    Continue,
    /// Configure the surface again, then go on.
    Reconfigure,
    /// Leave the loop.
    Exit,
}

/// How to go on after a frame that ended with `outcome`: a lost surface is
/// configured again, running out of memory or a refusal by the device ends
/// the loop, and everything else is left to the next frame.
pub open spec fn control_for(outcome: Result<(), FrameError>) -> Control {
    match outcome {
        Ok(_) => Control::Continue,
        Err(FrameError::Lost) => Control::Reconfigure,
        Err(FrameError::OutOfMemory) => Control::Exit,
        Err(FrameError::Rejected(_)) => Control::Exit,
        Err(FrameError::Timeout) => Control::Continue,
        Err(FrameError::Outdated) => Control::Continue,
    }
}

/// How to go on after a frame that ended with `outcome`.
pub fn after_frame(outcome: &Result<(), FrameError>) -> (control: Control)
    ensures
        control == control_for(*outcome),
{
    match outcome {
        Ok(_) => Control::Continue,
        Err(FrameError::Lost) => Control::Reconfigure,
        Err(FrameError::OutOfMemory) => Control::Exit,
        Err(FrameError::Rejected(_)) => Control::Exit,
        Err(FrameError::Timeout) => Control::Continue,
        Err(FrameError::Outdated) => Control::Continue,
    }
}

/// What the event loop has to do after `event`: a new size with some area
/// has the surface configured again, a request to redraw has a frame drawn,
/// and when all events are delivered the next redraw is asked for.
pub open spec fn action_for(event: Event) -> Action {
    match event {
        Event::Resized(width, height) => if width > 0 && height > 0 {
            Action::Configure
        } else {
            Action::Nothing
        },
        Event::RedrawRequested => Action::Draw,
        Event::MainEventsCleared => Action::RequestRedraw,
        _ => Action::Nothing,
    }
}

impl App {
    /// Takes one event: `W` and `S` move the camera by one step, a resize
    /// goes to [`resize`](App::resize), and nothing else changes the state.
    /// The answer is [`action_for`] the event.
    pub fn handle(&mut self, event: Event) -> (action: Action)
        ensures
            action == action_for(event),
            event == Event::KeyPressed(Key::W) ==> final(self).ctx() == (RenderContext {
                zoom_tenths: if old(self).ctx().zoom_tenths < i32::MAX {
                    (old(self).ctx().zoom_tenths + 1) as i32
                } else {
                    i32::MAX
                },
                ..old(self).ctx()
            }),
            event == Event::KeyPressed(Key::S) ==> final(self).ctx() == (RenderContext {
                zoom_tenths: if old(self).ctx().zoom_tenths > i32::MIN {
                    (old(self).ctx().zoom_tenths - 1) as i32
                } else {
                    i32::MIN
                },
                ..old(self).ctx()
            }),
            event matches Event::Resized(width, height) ==> {
                &&& width == 0 || height == 0 ==> *final(self) == *old(self)
                &&& width > 0 && height > 0 ==> {
                    &&& final(self).window() == (width, height)
                    &&& final(self).ctx() == (RenderContext { window_size: (width, height), ..old(self).ctx() })
                    &&& final(self).surface_configuration() == (SurfaceSettings {
                        width,
                        height,
                        ..old(self).surface_configuration()
                    })
                }
            },
            !(event is Resized) && event != Event::KeyPressed(Key::W) && event != Event::KeyPressed(Key::S)
                ==> *final(self) == *old(self),
            !(event is Resized) ==> final(self).window() == old(self).window(),
            !(event is Resized) ==> final(self).surface_configuration() == old(self).surface_configuration(),
            final(self).ctx().frame_cnt == old(self).ctx().frame_cnt,
            final(self).ctx().internal_target_size == old(self).ctx().internal_target_size,
            final(self).ctx().current_surface_texture == old(self).ctx().current_surface_texture,
            final(self).ctx().view_projection == old(self).ctx().view_projection,
            final(self).buffers() == old(self).buffers(),
            final(self).last_frame() == old(self).last_frame(),
            final(self).integrate() == old(self).integrate(),
            final(self).color() == old(self).color(),
            final(self).bloom() == old(self).bloom(),
            final(self).blit() == old(self).blit(),
    {
        match event {
            Event::KeyPressed(Key::W) => {
                self.zoom_in();
                Action::Nothing
            },
            Event::KeyPressed(Key::S) => {
                self.zoom_out();
                Action::Nothing
            },
            Event::KeyPressed(Key::Other) => Action::Nothing,
            Event::Resized(width, height) => {
                if self.resize(width, height) {
                    Action::Configure
                } else {
                    Action::Nothing
                }
            },
            Event::RedrawRequested => Action::Draw,
            Event::MainEventsCleared => Action::RequestRedraw,
            Event::Other => Action::Nothing,
        }
    }
}

} // verus!
