//! The frame orchestrator.
//!
//! An [`App`] owns the render context, the particle buffer and the four
//! passes.  Between frames it is idle; [`App::render`] records one frame
//! (integrate, colour, bloom, blit, in that order, into one command stream)
//! and hands back the finished frame.  The order of the stream is the only
//! synchronisation between the passes: the colour pass reads the particles
//! that the integration pass of the same frame wrote because it is recorded
//! after it.
//!
//! The surface stays with the caller, who owns the window: the caller
//! configures it as [`App::configuration`] says, acquires the image of each
//! frame, hands the image or the failure to [`App::render`], and submits and
//! presents what comes back.

use std::ops::Range;
use vstd::prelude::*;

use crate::buffers::{star_usage, Buffers};
use crate::context::{padded, Gpu, PixelFormat, RenderContext, SurfaceSettings, INITIAL_ZOOM_TENTHS};
use crate::error::{BuildError, BuildStage, FrameError};
use crate::gpu::{buffer_request, format_value, texture_request};
use crate::particle::particles_in;
use crate::pass::blit::{blit_set, lemma_blit_commands, BlitPass, SCREEN_VERTICES};
use crate::pass::color::{color_set, lemma_color_commands, particle_input, ColorPass};
use crate::pass::integrate::{integrate_set, lemma_integrate_commands, IntegratePass};
use crate::pass::ppfx::{bloom_format, bloom_set, lemma_bloom_commands, PPFXPass};
use crate::pass::{ComputeStage, RenderStage};
use crate::pipelines::{fixed_defaults, ComputePipelineView, RenderPipelineView, Topology};
use crate::stream::{compute_commands, render_commands, ClearColor, Command, CommandStream, Frame};
use crate::target::{Target, TargetView};

verus! {

/// The WGSL sources of the shaders, one for each pipeline.
pub struct Shaders<'a> {
    /// Compute shader that integrates the particles.
    pub integrate: &'a str,
    /// Vertex and fragment shader that draws a particle.
    pub draw_stars: &'a str,
    /// Compute shader of the horizontal blur.
    pub bloom_x: &'a str,
    /// Compute shader of the vertical blur.
    pub bloom_y: &'a str,
    /// Fragment shader that scales the image to the window.
    pub blit: &'a str,
}

struct RenderPasses {
    color_pass: ColorPass,
    ppfx_pass: PPFXPass,
    blit_pass: BlitPass,
    integrate: IntegratePass,
}

/// A particle simulation and everything needed to draw it.
pub struct App {
    render_ctx: RenderContext,
    bufs: Buffers,
    size: (u32, u32),
    surface_configuration: SurfaceSettings,
    render_passes: RenderPasses,
    last_frame: Ghost<Seq<Command>>,
}

/// The vertex range of a draw that covers `count` vertices.
pub open spec fn first(count: u32) -> Range<u32> {
    Range { start: 0, end: count }
}

/// The passes of a frame stand in their fixed order: the integration
/// dispatch first, then the colour pass with its camera upload, then the
/// bloom, then the blit with its two uploads, which draws to the image of the
/// frame.  Nothing else is recorded.
pub proof fn lemma_pass_order(app: &App, image: wgpu::TextureView)
    ensures
        ({
            let frame = app.frame(image);
            &&& frame.len() == 7
            &&& frame[0] == (Command::Compute {
                label: "Integrate Compute Pass"@,
                steps: app.integrate().steps(),
                commands: compute_commands(app.integrate().calls()),
            })
            &&& frame[1] == (Command::Write { buffer: "VP Matrix"@, words: app.ctx().view_projection@ })
            &&& frame[2] matches Command::Render { label, target, clear, .. } && label == "Color Render Pass"@
                && target == Target::Color && clear == ClearColor::Transparent
            &&& frame[3] == (Command::Compute {
                label: "Bloom Compute Pass"@,
                steps: app.bloom().steps(&app.ctx()),
                commands: compute_commands(app.bloom().calls(&app.ctx())),
            })
            &&& frame[4] is Write
            &&& frame[5] is Write
            &&& frame[6] matches Command::Render { label, target, clear, commands, .. } && label
                == "Blit Render Pass"@ && target == Target::Surface && clear == ClearColor::Red && commands
                == render_commands(app.blit().calls(image, first(SCREEN_VERTICES), first(1)))
        }),
{
}

/// In a frame of an orchestrator as [`App::new`] builds it, the device's
/// passes leave nothing out: each holds one command for every call that its
/// pass makes, in the order of the calls.
pub proof fn lemma_frame_commands(app: &App, shaders: &Shaders, image: wgpu::TextureView)
    requires
        app.integrate().wired(shaders.integrate@),
        app.color().wired(&app.ctx(), *app.buffers().star_buffer, shaders.draw_stars@),
        app.bloom().wired(&app.ctx(), shaders.bloom_x@, shaders.bloom_y@),
        app.blit().wired(&app.ctx(), shaders.blit@),
        app.ctx().color_target.handle() != app.ctx().pingpong.handle(),
    ensures
        ({
            let frame = app.frame(image);
            &&& frame[0] matches Command::Compute { commands, .. } && commands == app.integrate().calls()
            &&& frame[2] matches Command::Render { commands, .. } && commands == app.color().calls(
                first(app.buffers().particles),
                first(1),
            )
            &&& frame[3] matches Command::Compute { commands, .. } && commands == app.bloom().calls(&app.ctx())
            &&& frame[6] matches Command::Render { commands, .. } && commands == app.blit().calls(
                image,
                first(SCREEN_VERTICES),
                first(1),
            )
        }),
{
    lemma_integrate_commands(&app.integrate(), shaders.integrate@);
    lemma_color_commands(
        &app.color(),
        &app.ctx(),
        &*app.buffers().star_buffer,
        shaders.draw_stars@,
        first(app.buffers().particles),
        first(1),
    );
    lemma_bloom_commands(&app.bloom(), &app.ctx(), shaders.bloom_x@, shaders.bloom_y@);
    lemma_blit_commands(&app.blit(), &app.ctx(), shaders.blit@, image, first(SCREEN_VERTICES), first(1));
}

impl App {
    /// The render context.
    pub closed spec fn ctx(&self) -> RenderContext {
        self.render_ctx
    }

    /// The particle buffer.
    pub closed spec fn buffers(&self) -> Buffers {
        self.bufs
    }

    /// The size of the window in pixels.
    pub closed spec fn window(&self) -> (u32, u32) {
        self.size
    }

    /// The configuration that the surface has to have.
    pub closed spec fn surface_configuration(&self) -> SurfaceSettings {
        self.surface_configuration
    }

    /// The integration pass.
    pub closed spec fn integrate(&self) -> IntegratePass {
        self.render_passes.integrate
    }

    /// The colour pass.
    pub closed spec fn color(&self) -> ColorPass {
        self.render_passes.color_pass
    }

    /// The bloom pass.
    pub closed spec fn bloom(&self) -> PPFXPass {
        self.render_passes.ppfx_pass
    }

    /// The blit pass.
    pub closed spec fn blit(&self) -> BlitPass {
        self.render_passes.blit_pass
    }

    /// The trace of the last frame that was handed back; empty before the
    /// first.
    pub closed spec fn last_frame(&self) -> Seq<Command> {
        self.last_frame@
    }

    /// What a frame drawn to `image` records in the state the orchestrator
    /// is in: the four passes in their fixed order.  Integration comes before
    /// the colour pass, which draws what it wrote; the colour pass before the
    /// bloom, which blurs what it drew; the bloom before the blit, which
    /// shows the result.
    pub open spec fn frame(&self, image: wgpu::TextureView) -> Seq<Command> {
        self.integrate().recorded(&self.ctx()) + self.color().recorded(
            &self.ctx(),
            first(self.buffers().particles),
            first(1),
        ) + self.bloom().recorded(&self.ctx()) + self.blit().commands(
            self.ctx().window_size,
            self.ctx().internal_target_size,
            Target::Surface,
            image,
            first(SCREEN_VERTICES),
            first(1),
        )
    }

    /// Builds the context, uploads the particles and builds the passes.
    ///
    /// `settings` says how the surface that the frames are drawn to is
    /// configured; `particles` holds the particle records, and `readable`
    /// says whether they are to be read back from the device later.
    /// Settings with an empty area are refused before anything is asked of
    /// the device; beyond that the device decides.
    pub fn new(
        gpu: Gpu,
        settings: SurfaceSettings,
        view_projection: [u32; 16],
        particles: &[u8],
        readable: bool,
        shaders: &Shaders,
    ) -> (r: Result<App, BuildError>)
        ensures
            settings.width == 0 || settings.height == 0 ==> r is Err,
            padded(settings.width as nat) > u32::MAX || padded(settings.height as nat) > u32::MAX ==> r is Err,
            particles_in(particles@.len()) > u32::MAX ==> r is Err,
            r matches Err(e) ==> (e.stage == BuildStage::Surface <==> settings.width == 0 || settings.height == 0),
            r matches Ok(app) ==> {
                &&& app.window() == (settings.width, settings.height)
                &&& app.surface_configuration() == settings
                &&& app.ctx().surface_format == settings.format
                &&& app.ctx().window_size == (settings.width, settings.height)
                &&& app.ctx().internal_target_size.0 == padded(settings.width as nat)
                &&& app.ctx().internal_target_size.1 == padded(settings.height as nat)
                &&& app.ctx().view_projection == view_projection
                &&& app.ctx().frame_cnt == 0
                &&& app.ctx().zoom_tenths == INITIAL_ZOOM_TENTHS
                &&& !app.ctx().recording()
                &&& app.ctx().gpu == gpu
                &&& app.ctx().target_format == format_value(PixelFormat::Rgba8Unorm)
                &&& texture_request(app.ctx().color_target.handle()) == RenderContext::color_request(
                    gpu,
                    app.ctx().internal_target_size,
                )
                &&& texture_request(app.ctx().pingpong.handle()) == RenderContext::pingpong_request(
                    gpu,
                    app.ctx().internal_target_size,
                )
                &&& app.ctx().color_target.handle() != app.ctx().pingpong.handle()
                &&& app.buffers().particles == particles_in(particles@.len())
                &&& buffer_request(*app.buffers().star_buffer) == (
                    "Star Buffer"@,
                    particles@.len() as u64,
                    star_usage(readable),
                )
                &&& app.integrate().particles() == app.buffers().particles
                &&& app.integrate().pipeline() == (ComputePipelineView {
                    label: "Update Positions Pipeline"@,
                    groups: seq![integrate_set()],
                })
                &&& app.color().pipeline() == (RenderPipelineView {
                    label: "Draw Stars"@,
                    topology: Topology::PointList,
                    fixed: fixed_defaults(),
                    format: format_value(PixelFormat::Rgba8Unorm),
                    groups: seq![color_set()],
                    vertex_inputs: seq![particle_input()],
                })
                &&& app.bloom().horizontal() == (ComputePipelineView {
                    label: "Bloom X Pipeline"@,
                    groups: seq![bloom_set(bloom_format(), Target::Color, Target::PingPong)],
                })
                &&& app.bloom().vertical() == (ComputePipelineView {
                    label: "Bloom Y Pipeline"@,
                    groups: seq![bloom_set(bloom_format(), Target::PingPong, Target::Color)],
                })
                &&& app.blit().pipeline() == (RenderPipelineView {
                    label: "Blit Pipeline"@,
                    topology: Topology::TriangleList,
                    fixed: fixed_defaults(),
                    format: settings.format,
                    groups: seq![blit_set()],
                    vertex_inputs: Seq::empty(),
                })
                &&& app.integrate().stars() == *app.buffers().star_buffer
                &&& app.integrate().count().initial() == seq![app.buffers().particles]
                &&& app.integrate().wired(shaders.integrate@)
                &&& app.color().wired(&app.ctx(), *app.buffers().star_buffer, shaders.draw_stars@)
                &&& app.bloom().wired(&app.ctx(), shaders.bloom_x@, shaders.bloom_y@)
                &&& app.blit().wired(&app.ctx(), shaders.blit@)
                &&& app.last_frame() == Seq::<Command>::empty()
            },
    {
        if settings.width == 0 || settings.height == 0 {
            return Err(
                BuildError { stage: BuildStage::Surface, message: "the output has an empty area".to_owned() },
            );
        }
        let size = (settings.width, settings.height);
        let render_ctx = match RenderContext::new(gpu, settings.format, size, view_projection) {
            Ok(ctx) => ctx,
            Err(e) => {
                return Err(e);
            },
        };
        let bufs = match Buffers::new(&render_ctx.gpu, particles, readable) {
            Ok(bufs) => bufs,
            Err(e) => {
                return Err(e);
            },
        };
        let color_pass = match ColorPass::new(&render_ctx, bufs.star_buffer.clone(), shaders.draw_stars) {
            Ok(pass) => pass,
            Err(e) => {
                return Err(e);
            },
        };
        let ppfx_pass = match PPFXPass::new(&render_ctx, shaders.bloom_x, shaders.bloom_y) {
            Ok(pass) => pass,
            Err(e) => {
                return Err(e);
            },
        };
        let blit_pass = match BlitPass::new(&render_ctx, shaders.blit) {
            Ok(pass) => pass,
            Err(e) => {
                return Err(e);
            },
        };
        let integrate = match IntegratePass::new(&render_ctx, &bufs, shaders.integrate) {
            Ok(pass) => pass,
            Err(e) => {
                return Err(e);
            },
        };
        Ok(
            App {
                render_ctx,
                bufs,
                size,
                surface_configuration: settings,
                render_passes: RenderPasses { color_pass, ppfx_pass, blit_pass, integrate },
                last_frame: Ghost(Seq::empty()),
            },
        )
    }

    /// The render context.
    pub fn render_ctx(&self) -> (ctx: &RenderContext)
        ensures
            *ctx == self.ctx(),
    {
        &self.render_ctx
    }

    /// The particle buffer.
    pub fn bufs(&self) -> (bufs: &Buffers)
        ensures
            *bufs == self.buffers(),
    {
        &self.bufs
    }

    /// The size of the window in pixels.
    pub fn size(&self) -> (size: (u32, u32))
        ensures
            size == self.window(),
    {
        self.size
    }

    /// The number that the next frame will have: what the frame counter is
    /// after [`render`](Self::render) has advanced it.
    pub fn next_frame(&self) -> (number: u64)
        ensures
            number == if self.ctx().frame_cnt < u64::MAX {
                (self.ctx().frame_cnt + 1) as u64
            } else {
                u64::MAX
            },
    {
        if self.render_ctx.frame_cnt < u64::MAX {
            self.render_ctx.frame_cnt + 1
        } else {
            u64::MAX
        }
    }

    /// The configuration that the surface has to have.
    pub fn configuration(&self) -> (settings: SurfaceSettings)
        ensures
            settings == self.surface_configuration(),
    {
        self.surface_configuration
    }

    /// Takes a new window size, and says whether the surface has to be
    /// configured again.
    ///
    /// A size with a zero side is ignored: nothing changes and the surface
    /// is left as it is.  Any other size becomes the size of the window and
    /// of the configuration, which the caller then applies to the surface.
    /// The internal render targets keep their size either way.
    pub fn resize(&mut self, width: u32, height: u32) -> (configure: bool)
        ensures
            configure == (width > 0 && height > 0),
            !configure ==> *final(self) == *old(self),
            configure ==> {
                &&& final(self).window() == (width, height)
                &&& final(self).ctx() == (RenderContext { window_size: (width, height), ..old(self).ctx() })
                &&& final(self).surface_configuration() == (SurfaceSettings {
                    width,
                    height,
                    ..old(self).surface_configuration()
                })
            },
            final(self).buffers() == old(self).buffers(),
            final(self).last_frame() == old(self).last_frame(),
            final(self).integrate() == old(self).integrate(),
            final(self).color() == old(self).color(),
            final(self).bloom() == old(self).bloom(),
            final(self).blit() == old(self).blit(),
    {
        let mut settings = self.surface_configuration;
        if settings.resize(width, height) {
            self.size = (width, height);
            self.render_ctx.window_size = (width, height);
            self.surface_configuration = settings;
            true
        } else {
            false
        }
    }

    /// Moves the camera one step away from the origin; at the largest
    /// distance it stays.
    pub fn zoom_in(&mut self)
        ensures
            final(self).ctx() == (RenderContext {
                zoom_tenths: if old(self).ctx().zoom_tenths < i32::MAX {
                    (old(self).ctx().zoom_tenths + 1) as i32
                } else {
                    i32::MAX
                },
                ..old(self).ctx()
            }),
            final(self).buffers() == old(self).buffers(),
            final(self).window() == old(self).window(),
            final(self).surface_configuration() == old(self).surface_configuration(),
            final(self).last_frame() == old(self).last_frame(),
            final(self).integrate() == old(self).integrate(),
            final(self).color() == old(self).color(),
            final(self).bloom() == old(self).bloom(),
            final(self).blit() == old(self).blit(),
    {
        if self.render_ctx.zoom_tenths < i32::MAX {
            self.render_ctx.zoom_tenths = self.render_ctx.zoom_tenths + 1;
        }
    }

    /// Moves the camera one step towards the origin; at the smallest
    /// distance it stays.
    pub fn zoom_out(&mut self)
        ensures
            final(self).ctx() == (RenderContext {
                zoom_tenths: if old(self).ctx().zoom_tenths > i32::MIN {
                    (old(self).ctx().zoom_tenths - 1) as i32
                } else {
                    i32::MIN
                },
                ..old(self).ctx()
            }),
            final(self).buffers() == old(self).buffers(),
            final(self).window() == old(self).window(),
            final(self).surface_configuration() == old(self).surface_configuration(),
            final(self).last_frame() == old(self).last_frame(),
            final(self).integrate() == old(self).integrate(),
            final(self).color() == old(self).color(),
            final(self).bloom() == old(self).bloom(),
            final(self).blit() == old(self).blit(),
    {
        if self.render_ctx.zoom_tenths > i32::MIN {
            self.render_ctx.zoom_tenths = self.render_ctx.zoom_tenths - 1;
        }
    }

    /// Records one frame with the camera at `view_projection`, drawn to the
    /// image the caller acquired, and hands it back, ready for the queue.
    ///
    /// `image` is what came of acquiring the frame's image: a view of it, or
    /// the reason why there is none.  The frame counter advances and the
    /// camera is taken over in either case.  Without an image the reason is
    /// handed back as it is and nothing is recorded.  With one, the four
    /// passes are recorded in their fixed order and the stream is closed; a
    /// stream in which the device refused something is dropped.  Afterwards
    /// the orchestrator is idle again in every case, and the particle buffer
    /// is the one it was.
    pub fn render(&mut self, view_projection: [u32; 16], image: Result<wgpu::TextureView, FrameError>) -> (r:
        Result<Frame, FrameError>)
        ensures
            final(self).ctx() == (RenderContext {
                frame_cnt: if old(self).ctx().frame_cnt < u64::MAX {
                    (old(self).ctx().frame_cnt + 1) as u64
                } else {
                    u64::MAX
                },
                view_projection,
                current_surface_texture: None,
                ..old(self).ctx()
            }),
            final(self).buffers() == old(self).buffers(),
            final(self).window() == old(self).window(),
            final(self).surface_configuration() == old(self).surface_configuration(),
            final(self).integrate() == old(self).integrate(),
            final(self).color() == old(self).color(),
            final(self).bloom() == old(self).bloom(),
            final(self).blit() == old(self).blit(),
            image matches Err(e) ==> r == Err::<Frame, FrameError>(e),
            r matches Ok(frame) ==> image matches Ok(view) && frame.trace() == final(self).frame(view)
                && final(self).last_frame() == frame.trace(),
            r is Err ==> final(self).last_frame() == old(self).last_frame(),
            r matches Err(e) ==> image is Ok ==> e is Rejected,
    {
        if self.render_ctx.frame_cnt < u64::MAX {
            self.render_ctx.frame_cnt = self.render_ctx.frame_cnt + 1;
        }
        self.render_ctx.view_projection = view_projection;
        self.render_ctx.current_surface_texture = None;
        let view = match image {
            Err(e) => {
                return Err(e);
            },
            Ok(view) => view,
        };
        let ghost drawn = view;
        self.render_ctx.current_surface_texture = Some(TargetView::new(view, Target::Surface));
        let particles = self.bufs.particles;
        let outcome = {
            let mut stream = CommandStream::new(&self.render_ctx.gpu, "Render Encoder");
            self.render_passes.integrate.exec(&self.render_ctx, &mut stream);
            self.render_passes.color_pass.draw(&self.render_ctx, &mut stream, 0..particles, 0..1);
            self.render_passes.ppfx_pass.exec(&self.render_ctx, &mut stream);
            self.render_passes.blit_pass.draw(&self.render_ctx, &mut stream, 0..SCREEN_VERTICES, 0..1);
            stream.finish()
        };
        self.render_ctx.current_surface_texture = None;
        match outcome {
            Err(e) => Err(e),
            Ok(frame) => {
                self.last_frame = Ghost(frame.trace());
                assert(frame.trace() =~= self.frame(drawn));
                Ok(frame)
            },
        }
    }
}

} // verus!
