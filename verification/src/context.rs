//! The state shared by all passes of a session.

use vstd::prelude::*;

use crate::error::{staged, BuildError, BuildStage};
use crate::gpu::{
    create_sampler, create_texture, create_view, format_of, format_value, is_srgb, queue_device, request_device,
    sampler_descriptor, sampler_request, sampling, srgb, texture_request, view_texture, TextureRequest,
};
use crate::target::{Target, TargetView};
use std::rc::Rc;

verus! {

/// Texture usage: may be the source of a copy.
pub const TEXTURE_COPY_SRC: u32 = 1;

/// Texture usage: may be sampled by a shader.
pub const TEXTURE_BINDING: u32 = 4;

/// Texture usage: may be written by a compute shader.
pub const TEXTURE_STORAGE: u32 = 8;

/// Texture usage: may be the target of a render pass.
pub const TEXTURE_RENDER_ATTACHMENT: u32 = 16;

/// The side of the square tiles that the internal render targets are made
/// of.
pub const TILE: u32 = 64;

/// The zoom, in tenths, that a session starts with.
pub const INITIAL_ZOOM_TENTHS: i32 = 50;

/// The pixel formats that the library itself asks for.
#[derive(Clone, Copy, Debug, PartialEq, Eq, Structural)]
pub enum PixelFormat {
    /// Red, green, blue and alpha, eight bits each, linear.
    Rgba8Unorm,
    /// The same in the sRGB encoding.
    Rgba8UnormSrgb,
    /// Blue, green, red and alpha, eight bits each, linear.
    Bgra8Unorm,
    /// The same in the sRGB encoding.
    Bgra8UnormSrgb,
}

/// A device together with its own queue.
///
/// The two come from one request and stay together, so that whatever the
/// device objects to in a write on the queue is reported where the library
/// listens for it.
pub struct Gpu {
    device: Rc<wgpu::Device>,
    queue: wgpu::Queue,
}

impl Gpu {
    #[verifier::type_invariant]
    spec fn paired(&self) -> bool {
        queue_device(self.queue) == *self.device
    }

    /// The device.
    pub closed spec fn device_handle(&self) -> wgpu::Device {
        *self.device
    }

    /// The device's queue.
    pub closed spec fn queue_handle(&self) -> wgpu::Queue {
        self.queue
    }

    /// What becomes of the adapter's answer to a request for a device: the
    /// device with its queue, or a build error of the device stage.
    fn opened(answer: Result<(wgpu::Device, wgpu::Queue), wgpu::RequestDeviceError>) -> (r: Result<
        Gpu,
        BuildError,
    >)
        requires
            answer matches Ok(pair) ==> queue_device(pair.1) == pair.0,
        ensures
            answer is Ok <==> r is Ok,
            answer matches Ok(pair) ==> r is Ok && r->Ok_0.device_handle() == pair.0 && r->Ok_0.queue_handle() == pair.1,
            r matches Err(e) ==> e.stage == BuildStage::Device,
    {
        match answer {
            Ok((device, queue)) => Ok(Gpu { device: Rc::new(device), queue }),
            Err(_) => Err(
                BuildError { stage: BuildStage::Device, message: "the adapter gave no device".to_owned() },
            ),
        }
    }

    /// Asks `adapter` for a device with the given limits and no optional
    /// features.
    ///
    /// The adapter alone decides whether it can be had.
    pub fn open(adapter: &wgpu::Adapter, limits: wgpu::Limits) -> (r: Result<Gpu, BuildError>)
        ensures
            r matches Ok(gpu) ==> queue_device(gpu.queue_handle()) == gpu.device_handle(),
            r matches Err(e) ==> e.stage == BuildStage::Device,
    {
        Self::opened(request_device(adapter, limits))
    }

    /// The device.
    pub fn device(&self) -> (device: &wgpu::Device)
        ensures
            *device == self.device_handle(),
            queue_device(self.queue_handle()) == self.device_handle(),
    {
        proof {
            use_type_invariant(self);
        }
        &self.device
    }

    /// The device's queue.
    pub fn queue(&self) -> (queue: &wgpu::Queue)
        ensures
            *queue == self.queue_handle(),
            queue_device(self.queue_handle()) == self.device_handle(),
    {
        proof {
            use_type_invariant(self);
        }
        &self.queue
    }
}

/// One of the internal render targets: a texture, kept together with the
/// device that made it.
pub struct RenderTarget {
    texture: wgpu::Texture,
    device: Rc<wgpu::Device>,
}

impl RenderTarget {
    #[verifier::type_invariant]
    spec fn own(&self) -> bool {
        texture_request(self.texture).device == *self.device
    }

    /// The device's texture.
    pub closed spec fn handle(&self) -> wgpu::Texture {
        self.texture
    }

    /// Asks the device for a two-dimensional texture with one layer, one mip
    /// level and one sample per pixel.
    ///
    /// The device alone decides whether it can be had.
    pub fn new(gpu: &Gpu, label: &str, size: (u32, u32), format: wgpu::TextureFormat, usage: u32) -> (r: Result<
        RenderTarget,
        BuildError,
    >)
        ensures
            r matches Ok(made) ==> texture_request(made.handle()) == (TextureRequest {
                device: gpu.device_handle(),
                label: label@,
                size,
                format,
                usage,
                mips: 1,
                samples: 1,
            }),
            r matches Err(e) ==> e.stage == BuildStage::Texture,
    {
        let device = gpu.device.clone();
        match staged(BuildStage::Texture, create_texture(&device, label, size, format, usage, (1, 1))) {
            Ok(texture) => Ok(RenderTarget { texture, device }),
            Err(e) => Err(e),
        }
    }

    /// A view of the whole texture, to stand for `target`.
    ///
    /// The device alone decides whether it can be had.
    pub fn view(&self, target: Target) -> (r: Result<TargetView, BuildError>)
        ensures
            r matches Ok(view) ==> view.target() == target && view_texture(view.texture_view()) == self.handle(),
            r matches Err(e) ==> e.stage == BuildStage::Texture,
    {
        proof {
            use_type_invariant(self);
        }
        match staged(BuildStage::Texture, create_view(&self.device, &self.texture)) {
            Ok(view) => Ok(TargetView::new(view, target)),
            Err(e) => Err(e),
        }
    }

    /// The device's texture.
    pub fn texture(&self) -> (texture: &wgpu::Texture)
        ensures
            *texture == self.handle(),
    {
        &self.texture
    }
}

/// What a sampler does with coordinates outside the texture.
#[derive(Clone, Copy, Debug, PartialEq, Eq, Structural)]
pub enum AddressMode {
    ClampToEdge,
    Repeat,
    MirrorRepeat,
}

/// How a sampler chooses between neighbouring texels.
#[derive(Clone, Copy, Debug, PartialEq, Eq, Structural)]
pub enum FilterMode {
    Nearest,
    Linear,
}

/// A sampler and the modes it was made with.
pub struct TextureSampler {
    sampler: wgpu::Sampler,
    address: AddressMode,
    filter: FilterMode,
}

impl TextureSampler {
    /// What this sampler does with coordinates outside the texture, on every
    /// axis.
    pub closed spec fn address(&self) -> AddressMode {
        self.address
    }

    /// How this sampler chooses between texels: when magnifying, when
    /// minifying and between mip levels.
    pub closed spec fn filter(&self) -> FilterMode {
        self.filter
    }

    /// The sampler that the device made.
    pub closed spec fn handle(&self) -> wgpu::Sampler {
        self.sampler
    }

    /// What becomes of the device's answer to a request for a sampler with
    /// the given modes: the sampler it made, with its modes noted, or the
    /// refusal as a build error.
    pub fn made(address: AddressMode, filter: FilterMode, answer: Result<wgpu::Sampler, wgpu::Error>) -> (r: Result<
        TextureSampler,
        BuildError,
    >)
        ensures
            answer is Ok <==> r is Ok,
            answer matches Ok(sampler) ==> r is Ok && r->Ok_0.handle() == sampler && r->Ok_0.address() == address
                && r->Ok_0.filter() == filter,
            r matches Err(e) ==> e.stage == BuildStage::Sampler,
    {
        match staged(BuildStage::Sampler, answer) {
            Ok(sampler) => Ok(TextureSampler { sampler, address, filter }),
            Err(e) => Err(e),
        }
    }

    /// Asks the device for a sampler that uses `address` on every axis and
    /// `filter` throughout.
    ///
    /// The device alone decides whether it can be had.
    pub fn new(device: &wgpu::Device, address: AddressMode, filter: FilterMode) -> (r: Result<
        TextureSampler,
        BuildError,
    >)
        ensures
            r matches Ok(made) ==> made.address() == address && made.filter() == filter && sampler_request(
                made.handle(),
            ) == sampling(address, filter),
            r matches Err(e) ==> e.stage == BuildStage::Sampler,
    {
        let descriptor = sampler_descriptor(address, filter);
        Self::made(address, filter, create_sampler(device, &descriptor))
    }

    /// What this sampler does with coordinates outside the texture.
    pub fn addressing(&self) -> (address: AddressMode)
        ensures
            address == self.address(),
    {
        self.address
    }

    /// How this sampler chooses between texels.
    pub fn filtering(&self) -> (filter: FilterMode)
        ensures
            filter == self.filter(),
    {
        self.filter
    }

    /// The device's sampler.
    pub fn sampler(&self) -> (sampler: &wgpu::Sampler)
        ensures
            *sampler == self.handle(),
    {
        &self.sampler
    }
}

/// How a surface is configured.
#[derive(Clone, Copy, Debug, PartialEq, Eq)]
pub struct SurfaceSettings {
    pub width: u32,
    pub height: u32,
    pub format: wgpu::TextureFormat,
    /// Texture usage bits of the surface's images.
    pub usage: u32,
    pub present_mode: wgpu::PresentMode,
    pub alpha_mode: wgpu::CompositeAlphaMode,
}

/// The position of the first sRGB format in `formats`, or the length of
/// `formats` if there is none.
pub open spec fn first_srgb(formats: Seq<wgpu::TextureFormat>) -> int
    decreases formats.len(),
{
    if formats.len() == 0 {
        0
    } else if srgb(formats[0]) {
        0
    } else {
        1 + first_srgb(formats.skip(1))
    }
}

/// The format a surface should use: the first sRGB format it supports, or
/// its first format if it supports no sRGB format.
pub open spec fn preferred_format(formats: Seq<wgpu::TextureFormat>) -> wgpu::TextureFormat
    recommends
        formats.len() > 0,
{
    if first_srgb(formats) < formats.len() {
        formats[first_srgb(formats)]
    } else {
        formats[0]
    }
}

/// Picks the surface format: the first sRGB format, else the first format.
/// `None` if the surface offers no format at all.
pub fn choose_format(formats: &Vec<wgpu::TextureFormat>) -> (chosen: Option<wgpu::TextureFormat>)
    ensures
        formats@.len() == 0 ==> chosen is None,
        formats@.len() > 0 ==> chosen == Some(preferred_format(formats@)),
{
    if formats.len() == 0 {
        return None;
    }
    let mut i: usize = 0;
    assert(formats@.skip(0) =~= formats@);
    while i < formats.len()
        invariant
            i <= formats@.len(),
            first_srgb(formats@) == i + first_srgb(formats@.skip(i as int)),
        decreases formats@.len() - i,
    {
        if is_srgb(formats[i]) {
            assert(first_srgb(formats@.skip(i as int)) == 0);
            return Some(formats[i]);
        }
        proof {
            assert(formats@.skip(i as int).skip(1) =~= formats@.skip(i + 1));
        }
        i += 1;
    }
    Some(formats[0])
}

impl SurfaceSettings {
    /// The settings of a surface of `size` that supports the given formats
    /// and modes: the preferred format, the first present mode and the first
    /// alpha mode, for images that are rendered to and copied from.  `None`
    /// if one of the lists is empty.
    pub fn select(
        size: (u32, u32),
        formats: &Vec<wgpu::TextureFormat>,
        present_modes: &Vec<wgpu::PresentMode>,
        alpha_modes: &Vec<wgpu::CompositeAlphaMode>,
    ) -> (chosen: Option<SurfaceSettings>)
        ensures
            formats@.len() == 0 || present_modes@.len() == 0 || alpha_modes@.len() == 0 ==> chosen is None,
            formats@.len() > 0 && present_modes@.len() > 0 && alpha_modes@.len() > 0 ==> chosen == Some(
                SurfaceSettings {
                    width: size.0,
                    height: size.1,
                    format: preferred_format(formats@),
                    usage: 17,
                    present_mode: present_modes@[0],
                    alpha_mode: alpha_modes@[0],
                },
            ),
    {
        if present_modes.len() == 0 || alpha_modes.len() == 0 {
            return None;
        }
        assert(TEXTURE_RENDER_ATTACHMENT | TEXTURE_COPY_SRC == 17) by (bit_vector)
            requires
                TEXTURE_RENDER_ATTACHMENT == 16,
                TEXTURE_COPY_SRC == 1,
        ;
        match choose_format(formats) {
            None => None,
            Some(format) => Some(
                SurfaceSettings {
                    width: size.0,
                    height: size.1,
                    format,
                    usage: TEXTURE_RENDER_ATTACHMENT | TEXTURE_COPY_SRC,
                    present_mode: present_modes[0],
                    alpha_mode: alpha_modes[0],
                },
            ),
        }
    }

    /// Takes a new window size.  A size with a zero side is ignored and
    /// the settings stay as they are; the result says whether they changed
    /// and the surface has to be configured again.
    pub fn resize(&mut self, width: u32, height: u32) -> (changed: bool)
        ensures
            changed == (width > 0 && height > 0),
            !changed ==> *final(self) == *old(self),
            changed ==> *final(self) == (SurfaceSettings { width, height, ..*old(self) }),
    {
        if width > 0 && height > 0 {
            self.width = width;
            self.height = height;
            true
        } else {
            false
        }
    }
}

/// `n` rounded up to a whole number of tiles.
pub open spec fn padded(n: nat) -> nat {
    ((n + 63) / 64) * 64
}

/// `n` rounded up to a whole number of tiles, if that fits in 32 bits.
pub fn pad_to_tile(n: u32) -> (r: Option<u32>)
    ensures
        padded(n as nat) <= u32::MAX ==> r == Some(padded(n as nat) as u32),
        padded(n as nat) > u32::MAX ==> r is None,
{
    let tiles: u64 = (n as u64 + 63) / 64;
    let size: u64 = tiles * 64;
    if size <= 0xffff_ffff {
        Some(size as u32)
    } else {
        None
    }
}

/// Session state that every pass reads: the device, the view being
/// drawn to, the two internal render targets, camera and counters.
///
/// Owned by the frame orchestrator.  Passes borrow it shared; only the
/// orchestrator changes it, once per frame and before any pass runs.
pub struct RenderContext {
    /// The device and its queue.
    pub gpu: Gpu,
    /// The format of the images that are presented.
    pub surface_format: wgpu::TextureFormat,
    /// The size of the window in pixels.
    pub window_size: (u32, u32),
    /// The view of the image being drawn; `None` between frames.
    pub current_surface_texture: Option<TargetView>,
    pub color_target: RenderTarget,
    pub pingpong: RenderTarget,
    /// The format of both internal render targets: eight bits each of red,
    /// green, blue and alpha, linear.
    pub target_format: wgpu::TextureFormat,
    /// The size of both internal render targets: the window size at start,
    /// rounded up to whole tiles.  A resize does not change it.
    pub internal_target_size: (u32, u32),
    /// The product of the camera's projection and view matrices, column by
    /// column, as single-precision bit patterns.
    pub view_projection: [u32; 16],
    /// The number of frames started so far.
    pub frame_cnt: u64,
    /// The camera's distance from the origin, in tenths.
    pub zoom_tenths: i32,
}

impl RenderContext {
    /// Whether a frame is being recorded.
    pub open spec fn recording(&self) -> bool {
        self.current_surface_texture is Some
    }

    /// The request that the colour target of a context of this size is made
    /// with: rendered to, sampled and written by compute shaders.
    pub open spec fn color_request(gpu: Gpu, size: (u32, u32)) -> TextureRequest {
        TextureRequest {
            device: gpu.device_handle(),
            label: "Color Render Target"@,
            size,
            format: format_value(PixelFormat::Rgba8Unorm),
            usage: 28,
            mips: 1,
            samples: 1,
        }
    }

    /// The request that the second bloom texture is made with: sampled and
    /// written by compute shaders.
    pub open spec fn pingpong_request(gpu: Gpu, size: (u32, u32)) -> TextureRequest {
        TextureRequest {
            device: gpu.device_handle(),
            label: "Final Render Target"@,
            size,
            format: format_value(PixelFormat::Rgba8Unorm),
            usage: 12,
            mips: 1,
            samples: 1,
        }
    }

    /// Creates the internal render targets for a window of `window_size`
    /// and the context around them, idle, with no frame started and the
    /// initial zoom.
    ///
    /// Fails without asking the device if the padded size does not fit in 32
    /// bits; otherwise the device decides.
    pub fn new(gpu: Gpu, surface_format: wgpu::TextureFormat, window_size: (u32, u32), view_projection: [u32; 16]) -> (r:
        Result<RenderContext, BuildError>)
        ensures
            r matches Ok(ctx) ==> {
                &&& ctx.surface_format == surface_format
                &&& ctx.window_size == window_size
                &&& ctx.internal_target_size.0 == padded(window_size.0 as nat)
                &&& ctx.internal_target_size.1 == padded(window_size.1 as nat)
                &&& ctx.view_projection == view_projection
                &&& ctx.frame_cnt == 0
                &&& ctx.zoom_tenths == INITIAL_ZOOM_TENTHS
                &&& !ctx.recording()
                &&& ctx.gpu == gpu
                &&& ctx.target_format == format_value(PixelFormat::Rgba8Unorm)
                &&& texture_request(ctx.color_target.handle()) == Self::color_request(gpu, ctx.internal_target_size)
                &&& texture_request(ctx.pingpong.handle()) == Self::pingpong_request(gpu, ctx.internal_target_size)
                &&& ctx.color_target.handle() != ctx.pingpong.handle()
            },
            r matches Err(e) ==> e.stage == BuildStage::Texture,
            padded(window_size.0 as nat) > u32::MAX || padded(window_size.1 as nat) > u32::MAX ==> r is Err,
    {
        let size = match (pad_to_tile(window_size.0), pad_to_tile(window_size.1)) {
            (Some(width), Some(height)) => (width, height),
            _ => {
                return Err(
                    BuildError {
                        stage: BuildStage::Texture,
                        message: "the window is too large for its render targets".to_owned(),
                    },
                );
            },
        };
        let target_format = format_of(PixelFormat::Rgba8Unorm);
        assert(TEXTURE_RENDER_ATTACHMENT | TEXTURE_BINDING | TEXTURE_STORAGE == 28) by (bit_vector)
            requires
                TEXTURE_RENDER_ATTACHMENT == 16,
                TEXTURE_BINDING == 4,
                TEXTURE_STORAGE == 8,
        ;
        assert(TEXTURE_BINDING | TEXTURE_STORAGE == 12) by (bit_vector)
            requires
                TEXTURE_BINDING == 4,
                TEXTURE_STORAGE == 8,
        ;
        let color_target = match RenderTarget::new(
            &gpu,
            "Color Render Target",
            size,
            target_format,
            TEXTURE_RENDER_ATTACHMENT | TEXTURE_BINDING | TEXTURE_STORAGE,
        ) {
            Ok(target) => target,
            Err(e) => {
                return Err(e);
            },
        };
        let pingpong = match RenderTarget::new(
            &gpu,
            "Final Render Target",
            size,
            target_format,
            TEXTURE_BINDING | TEXTURE_STORAGE,
        ) {
            Ok(target) => target,
            Err(e) => {
                return Err(e);
            },
        };
        proof {
            reveal_strlit("Color Render Target");
            reveal_strlit("Final Render Target");
            assert("Color Render Target"@[0] != "Final Render Target"@[0]);
            assert(texture_request(color_target.handle()).label != texture_request(pingpong.handle()).label);
        }
        Ok(
            RenderContext {
                gpu,
                surface_format,
                window_size,
                current_surface_texture: None,
                color_target,
                pingpong,
                target_format,
                internal_target_size: size,
                view_projection,
                frame_cnt: 0,
                zoom_tenths: INITIAL_ZOOM_TENTHS,
            },
        )
    }

    /// A view of the intermediate colour target.
    ///
    /// The device alone decides whether it can be had.
    pub fn color_view(&self) -> (r: Result<TargetView, BuildError>)
        ensures
            r matches Ok(view) ==> view.target() == Target::Color && view_texture(view.texture_view())
                == self.color_target.handle(),
            r matches Err(e) ==> e.stage == BuildStage::Texture,
    {
        self.color_target.view(Target::Color)
    }

    /// A view of the second bloom texture.
    ///
    /// The device alone decides whether it can be had.
    pub fn pingpong_view(&self) -> (r: Result<TargetView, BuildError>)
        ensures
            r matches Ok(view) ==> view.target() == Target::PingPong && view_texture(view.texture_view())
                == self.pingpong.handle(),
            r matches Err(e) ==> e.stage == BuildStage::Texture,
    {
        self.pingpong.view(Target::PingPong)
    }

    /// A sampler that clamps to the edge and takes the nearest texel.
    ///
    /// The device alone decides whether it can be had.
    pub fn nearest_sampler(&self) -> (r: Result<TextureSampler, BuildError>)
        ensures
            r matches Ok(sampler) ==> sampler.address() == AddressMode::ClampToEdge && sampler.filter()
                == FilterMode::Nearest && sampler_request(sampler.handle()) == sampling(
                AddressMode::ClampToEdge,
                FilterMode::Nearest,
            ),
            r matches Err(e) ==> e.stage == BuildStage::Sampler,
    {
        TextureSampler::new(self.gpu.device(), AddressMode::ClampToEdge, FilterMode::Nearest)
    }

    /// Moves the camera one step away from the origin; at the largest
    /// distance it stays.
    pub fn zoom_in(&mut self)
        ensures
            *final(self) == (RenderContext {
                zoom_tenths: if old(self).zoom_tenths < i32::MAX {
                    (old(self).zoom_tenths + 1) as i32
                } else {
                    i32::MAX
                },
                ..*old(self)
            }),
    {
        if self.zoom_tenths < i32::MAX {
            self.zoom_tenths = self.zoom_tenths + 1;
        }
    }

    /// Moves the camera one step towards the origin; at the smallest
    /// distance it stays.
    pub fn zoom_out(&mut self)
        ensures
            *final(self) == (RenderContext {
                zoom_tenths: if old(self).zoom_tenths > i32::MIN {
                    (old(self).zoom_tenths - 1) as i32
                } else {
                    i32::MIN
                },
                ..*old(self)
            }),
    {
        if self.zoom_tenths > i32::MIN {
            self.zoom_tenths = self.zoom_tenths - 1;
        }
    }
}

} // verus!
