use std::rc::Rc;

use nbody::app::{App, Shaders};
use nbody::buffers::Buffers;
use nbody::context::{Gpu, RenderContext, RenderTarget, SurfaceSettings, INITIAL_ZOOM_TENTHS, TEXTURE_BINDING};
use nbody::error::{BuildStage, FrameError};
use nbody::events::{Action, Event, Key};
use nbody::pass::blit::BlitPass;
use nbody::pass::color::ColorPass;
use nbody::pass::integrate::IntegratePass;
use nbody::pass::ppfx::PPFXPass;
use nbody::pass::{ComputeStage, RenderStage};
use nbody::stream::CommandStream;
use nbody::target::{Target, TargetView};

const INTEGRATE: &str = "struct Star {\n\
    position: vec3<f32>,\n\
    mass: f32,\n\
    velocity: vec3<f32>,\n\
    bright: f32,\n\
};\n\
\n\
struct Params {\n\
    count: u32,\n\
};\n\
\n\
@group(0) @binding(0) var<storage, read_write> stars: array<Star>;\n\
@group(0) @binding(1) var<uniform> params: Params;\n\
\n\
const G: f32 = 6.674e-11;\n\
const DT: f32 = 10.0;\n\
const SOFTENING: f32 = 1.0e14;\n\
\n\
@compute @workgroup_size(64)\n\
fn cs_main(@builtin(global_invocation_id) id: vec3<u32>) {\n\
    let i = id.x;\n\
    if (i >= params.count) {\n\
        return;\n\
    }\n\
    let here = stars[i].position;\n\
    var pull = vec3<f32>(0.0, 0.0, 0.0);\n\
    for (var j = 0u; j < params.count; j = j + 1u) {\n\
        if (j != i) {\n\
            let d = stars[j].position - here;\n\
            let r2 = dot(d, d) + SOFTENING;\n\
            pull = pull + d * (G * stars[j].mass / (r2 * sqrt(r2)));\n\
        }\n\
    }\n\
    let velocity = stars[i].velocity + pull * DT;\n\
    stars[i].velocity = velocity;\n\
    stars[i].position = here + velocity * DT;\n\
}\n\
";

const DRAW_STARS: &str = "struct Camera {\n\
    view_projection: mat4x4<f32>,\n\
};\n\
\n\
@group(0) @binding(0) var<uniform> camera: Camera;\n\
\n\
struct VertexInput {\n\
    @location(0) position: vec3<f32>,\n\
    @location(1) mass: f32,\n\
    @location(2) velocity: vec3<f32>,\n\
    @location(3) bright: f32,\n\
};\n\
\n\
struct VertexOutput {\n\
    @builtin(position) clip: vec4<f32>,\n\
    @location(0) bright: f32,\n\
};\n\
\n\
const SCALE: f32 = 1.0e-9;\n\
\n\
@vertex\n\
fn vs_main(in: VertexInput) -> VertexOutput {\n\
    var out: VertexOutput;\n\
    out.clip = camera.view_projection * vec4<f32>(in.position * SCALE, 1.0);\n\
    out.bright = in.bright;\n\
    return out;\n\
}\n\
\n\
@fragment\n\
fn fs_main(in: VertexOutput) -> @location(0) vec4<f32> {\n\
    return vec4<f32>(in.bright, in.bright, in.bright, 1.0);\n\
}\n\
";

const BLOOM_X: &str = "@group(0) @binding(0) var source: texture_2d<f32>;\n\
@group(0) @binding(1) var source_sampler: sampler;\n\
@group(0) @binding(2) var destination: texture_storage_2d<rgba8unorm, write>;\n\
\n\
@compute @workgroup_size(16, 16)\n\
fn cs_main(@builtin(global_invocation_id) id: vec3<u32>) {\n\
    let size = vec2<i32>(textureDimensions(destination));\n\
    let at = vec2<i32>(id.xy);\n\
    if (at.x >= size.x || at.y >= size.y) {\n\
        return;\n\
    }\n\
    var sum = vec4<f32>(0.0, 0.0, 0.0, 0.0);\n\
    var total = 0.0;\n\
    for (var k = -4; k <= 4; k = k + 1) {\n\
        let weight = 5.0 - abs(f32(k));\n\
        let uv = (vec2<f32>(at + vec2<i32>(k, 0)) + vec2<f32>(0.5, 0.5)) / vec2<f32>(size);\n\
        sum = sum + textureSampleLevel(source, source_sampler, uv, 0.0) * weight;\n\
        total = total + weight;\n\
    }\n\
    textureStore(destination, at, sum / total);\n\
}\n\
";

const BLOOM_Y: &str = "@group(0) @binding(0) var source: texture_2d<f32>;\n\
@group(0) @binding(1) var source_sampler: sampler;\n\
@group(0) @binding(2) var destination: texture_storage_2d<rgba8unorm, write>;\n\
\n\
@compute @workgroup_size(16, 16)\n\
fn cs_main(@builtin(global_invocation_id) id: vec3<u32>) {\n\
    let size = vec2<i32>(textureDimensions(destination));\n\
    let at = vec2<i32>(id.xy);\n\
    if (at.x >= size.x || at.y >= size.y) {\n\
        return;\n\
    }\n\
    var sum = vec4<f32>(0.0, 0.0, 0.0, 0.0);\n\
    var total = 0.0;\n\
    for (var k = -4; k <= 4; k = k + 1) {\n\
        let weight = 5.0 - abs(f32(k));\n\
        let uv = (vec2<f32>(at + vec2<i32>(0, k)) + vec2<f32>(0.5, 0.5)) / vec2<f32>(size);\n\
        sum = sum + textureSampleLevel(source, source_sampler, uv, 0.0) * weight;\n\
        total = total + weight;\n\
    }\n\
    textureStore(destination, at, sum / total);\n\
}\n\
";

const BLIT: &str = "struct VertexOutput {\n\
    @builtin(position) position: vec4<f32>,\n\
    @location(0) uv: vec2<f32>,\n\
};\n\
\n\
@group(0) @binding(0) var<uniform> resolution: vec2<f32>;\n\
@group(0) @binding(1) var<uniform> internal_resolution: vec2<f32>;\n\
@group(0) @binding(2) var image: texture_2d<f32>;\n\
@group(0) @binding(3) var image_sampler: sampler;\n\
\n\
@fragment\n\
fn fs_main(in: VertexOutput) -> @location(0) vec4<f32> {\n\
    let shown = min(resolution / internal_resolution, vec2<f32>(1.0, 1.0));\n\
    let color = textureSample(image, image_sampler, in.uv * shown);\n\
    return vec4<f32>(color.rgb, 1.0);\n\
}\n\
";


const SHADERS: Shaders<'static> =
    Shaders { integrate: INTEGRATE, draw_stars: DRAW_STARS, bloom_x: BLOOM_X, bloom_y: BLOOM_Y, blit: BLIT };

const IDENTITY: [f32; 16] = [1.0, 0.0, 0.0, 0.0, 0.0, 1.0, 0.0, 0.0, 0.0, 0.0, 1.0, 0.0, 0.0, 0.0, 0.0, 1.0];

fn gpu() -> Gpu {
    let instance = wgpu::Instance::new(wgpu::InstanceDescriptor {
        backends: wgpu::Backends::all(),
        dx12_shader_compiler: Default::default(),
    });
    let adapter = pollster::block_on(instance.request_adapter(&wgpu::RequestAdapterOptions {
        power_preference: wgpu::PowerPreference::LowPower,
        compatible_surface: None,
        force_fallback_adapter: false,
    }))
    .expect("an adapter");
    Gpu::open(&adapter, wgpu::Limits::downlevel_defaults()).expect("a device")
}

fn words(matrix: [f32; 16]) -> [u32; 16] {
    matrix.map(|x| x.to_bits())
}

fn settings(width: u32, height: u32) -> SurfaceSettings {
    SurfaceSettings {
        width,
        height,
        format: wgpu::TextureFormat::Rgba8Unorm,
        usage: 17,
        present_mode: wgpu::PresentMode::Fifo,
        alpha_mode: wgpu::CompositeAlphaMode::Opaque,
    }
}

fn offscreen(device: &wgpu::Device, width: u32, height: u32) -> wgpu::Texture {
    device.create_texture(&wgpu::TextureDescriptor {
        label: Some("Offscreen"),
        size: wgpu::Extent3d { width, height, depth_or_array_layers: 1 },
        mip_level_count: 1,
        sample_count: 1,
        dimension: wgpu::TextureDimension::D2,
        format: wgpu::TextureFormat::Rgba8Unorm,
        usage: wgpu::TextureUsages::RENDER_ATTACHMENT | wgpu::TextureUsages::COPY_SRC,
        view_formats: &[],
    })
}

/// Two clusters of `n / 2` particles each, around -1e9 and +1e9 on the x axis.
fn clusters(n: usize) -> Vec<f32> {
    let mut seed: u32 = 12345;
    let mut unit = move || {
        seed = seed.wrapping_mul(1664525).wrapping_add(1013904223);
        (seed >> 8) as f32 / 16_777_216.0
    };
    let mut stars = Vec::new();
    for i in 0..n {
        let (centre, bright) = if i < n / 2 { (-10e8f32, 1.0f32) } else { (10e8f32, 0.5f32) };
        stars.extend_from_slice(&[
            unit() * 9e8 + centre,
            unit() * 9e8,
            unit() * 9e8,
            unit() * 5e29,
            0.0,
            0.0,
            0.0,
            bright,
        ]);
    }
    stars
}

fn app(n: usize, width: u32, height: u32) -> App {
    let stars = clusters(n);
    App::new(gpu(), settings(width, height), words(IDENTITY), bytemuck::cast_slice(&stars), true, &SHADERS)
        .expect("the application")
}

/// Draws one frame into `image` and submits it.
fn frame(app: &mut App, camera: [f32; 16], image: &wgpu::Texture) -> Result<(), FrameError> {
    let view = image.create_view(&wgpu::TextureViewDescriptor::default());
    let frame = app.render(words(camera), Ok(view))?;
    app.render_ctx().gpu.queue().submit(std::iter::once(frame.into_commands()));
    Ok(())
}

fn image(app: &App) -> wgpu::Texture {
    let (width, height) = app.size();
    offscreen(&app.render_ctx().gpu.device(), width, height)
}

fn read_back(app: &App) -> Vec<f32> {
    let ctx = app.render_ctx();
    let stars = &app.bufs().star_buffer;
    let staging = ctx.gpu.device().create_buffer(&wgpu::BufferDescriptor {
        label: None,
        size: stars.size(),
        usage: wgpu::BufferUsages::MAP_READ | wgpu::BufferUsages::COPY_DST,
        mapped_at_creation: false,
    });
    let mut encoder = ctx.gpu.device().create_command_encoder(&wgpu::CommandEncoderDescriptor { label: None });
    encoder.copy_buffer_to_buffer(stars, 0, &staging, 0, stars.size());
    ctx.gpu.queue().submit(std::iter::once(encoder.finish()));
    let slice = staging.slice(..);
    slice.map_async(wgpu::MapMode::Read, |r| r.expect("mapped"));
    ctx.gpu.device().poll(wgpu::Maintain::Wait);
    let data: Vec<f32> = bytemuck::cast_slice(&slice.get_mapped_range()).to_vec();
    data
}

fn centroid(stars: &[f32], from: usize, to: usize) -> [f64; 3] {
    let mut sum = [0.0f64; 3];
    for i in from..to {
        for axis in 0..3 {
            sum[axis] += stars[i * 8 + axis] as f64;
        }
    }
    sum.map(|s| s / (to - from) as f64)
}

#[test]
fn a_new_application_is_idle() {
    let app = app(64, 100, 70);
    assert_eq!(app.size(), (100, 70));
    assert_eq!(app.configuration(), settings(100, 70));
    let ctx = app.render_ctx();
    assert_eq!(ctx.window_size, (100, 70));
    assert_eq!(ctx.internal_target_size, (128, 128));
    assert_eq!(ctx.color_target.texture().width(), 128);
    assert_eq!(ctx.pingpong.texture().height(), 128);
    assert_eq!(ctx.frame_cnt, 0);
    assert_eq!(ctx.zoom_tenths, INITIAL_ZOOM_TENTHS);
    assert_eq!(ctx.view_projection, words(IDENTITY));
    assert!(ctx.current_surface_texture.is_none());
    assert_eq!(app.bufs().particles, 64);
    assert_eq!(app.bufs().star_buffer.size(), 64 * 32);
    let sampler = ctx.nearest_sampler().expect("a sampler");
    assert_eq!(sampler.addressing(), nbody::context::AddressMode::ClampToEdge);
    assert_eq!(sampler.filtering(), nbody::context::FilterMode::Nearest);
}

#[test]
fn an_empty_area_is_refused() {
    let refused = App::new(
        gpu(),
        settings(0, 600),
        words(IDENTITY),
        bytemuck::cast_slice(&clusters(64)),
        false,
        &SHADERS,
    );
    match refused {
        Ok(_) => panic!("an empty area was accepted"),
        Err(e) => assert_eq!(e.stage, BuildStage::Surface),
    }
}

#[test]
fn a_broken_shader_is_reported() {
    let broken = Shaders { bloom_y: "fn cs_main( {", ..SHADERS };
    let refused = App::new(
        gpu(),
        settings(64, 64),
        words(IDENTITY),
        bytemuck::cast_slice(&clusters(64)),
        false,
        &broken,
    );
    match refused {
        Ok(_) => panic!("a broken shader was accepted"),
        Err(e) => {
            assert_eq!(e.stage, BuildStage::ShaderModule);
            assert!(!e.message.is_empty());
        }
    }
}

#[test]
fn frames_count_and_take_the_camera() {
    let mut app = app(64, 64, 64);
    let target = image(&app);
    let mut camera = IDENTITY;
    for number in 1..=3u64 {
        camera[0] = number as f32;
        assert_eq!(frame(&mut app, camera, &target), Ok(()));
        assert_eq!(app.render_ctx().frame_cnt, number);
        assert_eq!(app.render_ctx().view_projection, words(camera));
        assert!(app.render_ctx().current_surface_texture.is_none());
    }
}

#[test]
fn hundred_frames_keep_the_buffer_and_move_the_clusters() {
    let n = 64;
    let mut app = app(n, 64, 64);
    let target = image(&app);
    let before = read_back(&app);
    assert_eq!(before, clusters(n));
    let size = app.bufs().star_buffer.size();
    assert_eq!(size, (n * 32) as u64);
    for _ in 0..100 {
        assert_eq!(frame(&mut app, IDENTITY, &target), Ok(()));
        assert_eq!(app.bufs().star_buffer.size(), size);
        assert_eq!(app.bufs().particles, n as u32);
    }
    assert_eq!(app.render_ctx().frame_cnt, 100);
    let after = read_back(&app);
    assert_eq!(after.len(), before.len());
    for (from, to) in [(0, n / 2), (n / 2, n)] {
        let was = centroid(&before, from, to);
        let is = centroid(&after, from, to);
        assert!(is.iter().all(|c| c.is_finite()));
        assert!(was != is, "cluster {}..{} did not move", from, to);
    }
    // Mass and brightness are not touched by the integration.
    for i in 0..n {
        assert_eq!(after[i * 8 + 3], before[i * 8 + 3]);
        assert_eq!(after[i * 8 + 7], before[i * 8 + 7]);
    }
    // The clusters attract each other along the x axis.
    assert!(centroid(&after, 0, n / 2)[0] > centroid(&before, 0, n / 2)[0]);
    assert!(centroid(&after, n / 2, n)[0] < centroid(&before, n / 2, n)[0]);
}

#[test]
fn a_last_partial_workgroup_is_integrated_too() {
    // 96 particles take two workgroups of 64; the second one moves the last 32.
    let n = 96;
    let mut app = app(n, 64, 64);
    let target = image(&app);
    let before = read_back(&app);
    for _ in 0..5 {
        assert_eq!(frame(&mut app, IDENTITY, &target), Ok(()));
    }
    let after = read_back(&app);
    assert_eq!(after.len(), before.len());
    for i in 0..n {
        assert!(after[i * 8..i * 8 + 3] != before[i * 8..i * 8 + 3], "particle {} did not move", i);
    }
}

#[test]
fn without_an_image_nothing_is_drawn() {
    let mut app = app(64, 64, 64);
    let before = read_back(&app);
    let mut camera = IDENTITY;
    camera[5] = 3.0;
    for (number, reason) in
        [FrameError::Lost, FrameError::Outdated, FrameError::Timeout, FrameError::OutOfMemory].into_iter().enumerate()
    {
        match app.render(words(camera), Err(reason.clone())) {
            Err(e) => assert_eq!(e, reason),
            Ok(_) => panic!("a frame without an image"),
        }
        assert_eq!(app.render_ctx().frame_cnt, number as u64 + 1);
        assert_eq!(app.render_ctx().view_projection, words(camera));
        assert!(app.render_ctx().current_surface_texture.is_none());
    }
    assert_eq!(read_back(&app), before);
}

#[test]
fn the_frame_ends_on_the_output() {
    let mut app = app(64, 64, 64);
    let target = image(&app);
    assert_eq!(frame(&mut app, IDENTITY, &target), Ok(()));
    let texture = &target;
    let ctx = app.render_ctx();
    let staging = ctx.gpu.device().create_buffer(&wgpu::BufferDescriptor {
        label: None,
        size: 64 * 64 * 4,
        usage: wgpu::BufferUsages::MAP_READ | wgpu::BufferUsages::COPY_DST,
        mapped_at_creation: false,
    });
    let mut encoder = ctx.gpu.device().create_command_encoder(&wgpu::CommandEncoderDescriptor { label: None });
    encoder.copy_texture_to_buffer(
        texture.as_image_copy(),
        wgpu::ImageCopyBuffer {
            buffer: &staging,
            layout: wgpu::ImageDataLayout { offset: 0, bytes_per_row: Some(64 * 4), rows_per_image: Some(64) },
        },
        wgpu::Extent3d { width: 64, height: 64, depth_or_array_layers: 1 },
    );
    ctx.gpu.queue().submit(std::iter::once(encoder.finish()));
    let slice = staging.slice(..);
    slice.map_async(wgpu::MapMode::Read, |r| r.expect("mapped"));
    ctx.gpu.device().poll(wgpu::Maintain::Wait);
    let pixels: Vec<u8> = slice.get_mapped_range().to_vec();
    // The blit pass clears to opaque red and then covers the whole image with the
    // post-processed picture, whose background is black: no pixel stays red.
    assert!(pixels.chunks(4).all(|p| p[3] == 255));
    assert!(pixels.chunks(4).all(|p| !(p[0] == 255 && p[1] == 0 && p[2] == 0)));
}

#[test]
fn workgroups_are_particles_over_sixty_four() {
    let ctx = RenderContext::new(gpu(), wgpu::TextureFormat::Rgba8Unorm, (64, 64), words(IDENTITY))
        .expect("a context");
    for (n, groups) in [(64usize, 1u32), (128, 2), (640, 10), (63, 1), (65, 2), (96304, 1505), (0, 0)] {
        let stars = vec![0u8; n * 32 + 4];
        let bufs = Buffers::new(&ctx.gpu, &stars, false).expect("particles");
        assert_eq!(bufs.particles as usize, n);
        let pass = IntegratePass::new(&ctx, &bufs, INTEGRATE).expect("the pass");
        assert_eq!(pass.workgroup_count(), groups);
    }
}

#[test]
fn passes_record_without_refusal() {
    let mut ctx = RenderContext::new(gpu(), wgpu::TextureFormat::Rgba8Unorm, (64, 48), words(IDENTITY))
        .expect("a context");
    let stars = clusters(128);
    let bufs = Buffers::new(&ctx.gpu, bytemuck::cast_slice(&stars), false).expect("particles");
    let integrate = IntegratePass::new(&ctx, &bufs, INTEGRATE).expect("integrate");
    let color = ColorPass::new(&ctx, Rc::clone(&bufs.star_buffer), DRAW_STARS).expect("colour");
    let bloom = PPFXPass::new(&ctx, BLOOM_X, BLOOM_Y).expect("bloom");
    let blit = BlitPass::new(&ctx, BLIT).expect("blit");
    let target = offscreen(ctx.gpu.device(), 64, 48);
    let view = target.create_view(&wgpu::TextureViewDescriptor::default());
    ctx.current_surface_texture = Some(TargetView::new(view, Target::Surface));
    assert_eq!(ctx.current_surface_texture.as_ref().map(|v| v.which()), Some(Target::Surface));
    let mut stream = CommandStream::new(&ctx.gpu, "Test Encoder");
    integrate.exec(&ctx, &mut stream);
    color.draw(&ctx, &mut stream, 0..128, 0..1);
    bloom.exec(&ctx, &mut stream);
    blit.draw(&ctx, &mut stream, 0..6, 0..1);
    assert!(!stream.is_refused());
    let frame = stream.finish().expect("a frame");
    ctx.gpu.queue().submit(std::iter::once(frame.into_commands()));
    ctx.gpu.device().poll(wgpu::Maintain::Wait);
}

#[test]
fn a_refused_pass_is_not_submitted() {
    let mut ctx = RenderContext::new(gpu(), wgpu::TextureFormat::Rgba8Unorm, (64, 64), words(IDENTITY))
        .expect("a context");
    let blit = BlitPass::new(&ctx, BLIT).expect("blit");
    // The pipeline was built for Rgba8Unorm; this image has another format.
    let wrong = ctx.gpu.device().create_texture(&wgpu::TextureDescriptor {
        label: None,
        size: wgpu::Extent3d { width: 64, height: 64, depth_or_array_layers: 1 },
        mip_level_count: 1,
        sample_count: 1,
        dimension: wgpu::TextureDimension::D2,
        format: wgpu::TextureFormat::Rgba16Float,
        usage: wgpu::TextureUsages::RENDER_ATTACHMENT,
        view_formats: &[],
    });
    let view = wrong.create_view(&wgpu::TextureViewDescriptor::default());
    ctx.current_surface_texture = Some(TargetView::new(view, Target::Surface));
    let mut stream = CommandStream::new(&ctx.gpu, "Test Encoder");
    blit.draw(&ctx, &mut stream, 0..6, 0..1);
    assert!(stream.is_refused());
    match stream.finish() {
        Err(FrameError::Rejected(message)) => assert!(!message.is_empty()),
        Err(other) => panic!("expected a refusal, got {:?}", other),
        Ok(_) => panic!("a refused stream was finished"),
    }
}

#[test]
fn events_zoom_and_resize() {
    let mut app = app(64, 64, 64);
    assert_eq!(app.handle(Event::KeyPressed(Key::W)), Action::Nothing);
    assert_eq!(app.handle(Event::KeyPressed(Key::W)), Action::Nothing);
    assert_eq!(app.render_ctx().zoom_tenths, INITIAL_ZOOM_TENTHS + 2);
    assert_eq!(app.handle(Event::KeyPressed(Key::S)), Action::Nothing);
    assert_eq!(app.render_ctx().zoom_tenths, INITIAL_ZOOM_TENTHS + 1);
    assert_eq!(app.handle(Event::KeyPressed(Key::Other)), Action::Nothing);
    assert_eq!(app.render_ctx().zoom_tenths, INITIAL_ZOOM_TENTHS + 1);
    assert_eq!(app.handle(Event::RedrawRequested), Action::Draw);
    assert_eq!(app.handle(Event::MainEventsCleared), Action::RequestRedraw);
    assert_eq!(app.handle(Event::Other), Action::Nothing);
    assert_eq!(app.handle(Event::Resized(0, 600)), Action::Nothing);
    assert_eq!(app.configuration(), settings(64, 64));
    assert_eq!(app.size(), (64, 64));
    assert_eq!(app.render_ctx().window_size, (64, 64));
    assert_eq!(app.handle(Event::Resized(800, 600)), Action::Configure);
    assert_eq!(app.configuration(), settings(800, 600));
    assert_eq!(app.size(), (800, 600));
    assert_eq!(app.render_ctx().window_size, (800, 600));
    assert_eq!(app.render_ctx().internal_target_size, (64, 64));
    assert_eq!(app.render_ctx().zoom_tenths, INITIAL_ZOOM_TENTHS + 1);
    assert_eq!(app.render_ctx().frame_cnt, 0);
    assert!(app.render_ctx().current_surface_texture.is_none());
    assert!(!app.resize(800, 0));
    assert_eq!(app.configuration(), settings(800, 600));
    assert!(app.resize(320, 200));
    assert_eq!(app.configuration(), settings(320, 200));
    let target = image(&app);
    assert_eq!(frame(&mut app, IDENTITY, &target), Ok(()));
}

#[test]
fn the_internal_targets_are_rgba8_unorm() {
    let app = app(64, 800, 600);
    let ctx = app.render_ctx();
    assert_eq!(ctx.internal_target_size, (832, 640));
    assert_eq!(ctx.target_format, wgpu::TextureFormat::Rgba8Unorm);
    let color = ctx.color_target.texture();
    assert_eq!((color.width(), color.height()), (832, 640));
    assert_eq!(color.format(), wgpu::TextureFormat::Rgba8Unorm);
    assert_eq!(
        color.usage(),
        wgpu::TextureUsages::RENDER_ATTACHMENT
            | wgpu::TextureUsages::TEXTURE_BINDING
            | wgpu::TextureUsages::STORAGE_BINDING
    );
    let second = ctx.pingpong.texture();
    assert_eq!((second.width(), second.height()), (832, 640));
    assert_eq!(second.format(), wgpu::TextureFormat::Rgba8Unorm);
    assert_eq!(second.usage(), wgpu::TextureUsages::TEXTURE_BINDING | wgpu::TextureUsages::STORAGE_BINDING);
    assert!(ctx.color_view().is_ok());
    assert!(ctx.pingpong_view().is_ok());
}

#[test]
fn the_particle_buffer_can_be_copied_from_only_on_request() {
    let gpu = gpu();
    let stars = vec![0u8; 64];
    let plain = Buffers::new(&gpu, &stars, false).expect("particles");
    assert_eq!(
        plain.star_buffer.usage(),
        wgpu::BufferUsages::VERTEX | wgpu::BufferUsages::STORAGE | wgpu::BufferUsages::COPY_DST
    );
    let readable = Buffers::new(&gpu, &stars, true).expect("particles");
    assert_eq!(
        readable.star_buffer.usage(),
        wgpu::BufferUsages::VERTEX
            | wgpu::BufferUsages::STORAGE
            | wgpu::BufferUsages::COPY_DST
            | wgpu::BufferUsages::COPY_SRC
    );
    assert_eq!(plain.particles, 2);
}

#[test]
fn a_write_that_is_not_a_whole_number_of_words_is_refused() {
    let gpu = gpu();
    let refused = Buffers::new(&gpu, &[0u8; 3], false);
    match refused {
        Ok(_) => panic!("three bytes were written"),
        Err(e) => assert_eq!(e.stage, BuildStage::Buffer),
    }
}

#[test]
fn a_target_gives_views_until_it_is_destroyed() {
    let gpu = gpu();
    let target = RenderTarget::new(&gpu, "Target", (16, 8), wgpu::TextureFormat::Rgba8Unorm, TEXTURE_BINDING)
        .expect("a texture");
    assert_eq!((target.texture().width(), target.texture().height()), (16, 8));
    assert_eq!(target.texture().usage(), wgpu::TextureUsages::TEXTURE_BINDING);
    let view = target.view(Target::PingPong).expect("a view");
    assert_eq!(view.which(), Target::PingPong);
    target.texture().destroy();
    match target.view(Target::PingPong) {
        Ok(_) => panic!("a destroyed texture gave a view"),
        Err(e) => assert_eq!(e.stage, BuildStage::Texture),
    }
}

#[test]
fn a_texture_without_area_is_refused() {
    let gpu = gpu();
    let refused = RenderTarget::new(&gpu, "Nothing", (0, 8), wgpu::TextureFormat::Rgba8Unorm, TEXTURE_BINDING);
    match refused {
        Ok(_) => panic!("a texture without area was made"),
        Err(e) => assert_eq!(e.stage, BuildStage::Texture),
    }
}
