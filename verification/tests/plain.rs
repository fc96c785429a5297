use nbody::buffers::{USAGE_COPY_DST, USAGE_COPY_SRC, USAGE_STORAGE, USAGE_UNIFORM, USAGE_VERTEX};
use nbody::context::{
    choose_format, pad_to_tile, SurfaceSettings, TEXTURE_BINDING, TEXTURE_COPY_SRC,
    TEXTURE_RENDER_ATTACHMENT, TEXTURE_STORAGE,
};
use nbody::error::{staged, BuildStage, FrameError};
use nbody::events::{after_frame, Control};
use nbody::ieee::single_bits;
use nbody::particle::{
    particle_count, particle_layout, population, Draw, FULL_BRIGHTNESS, HALF_BRIGHTNESS, N_PARTS,
    PARTICLE_BYTES, PARTICLE_WORDS,
};
use nbody::pass::blit::resolution;
use nbody::pass::ppfx::tile_count;
use nbody::pipelines::{Blending, Culling, FixedFunction, Rasterization, Winding, COLOR_WRITE_ALL};
use nbody::vertex::{packed, Attribute, AttributeFormat, StepMode};

fn settings(width: u32, height: u32) -> SurfaceSettings {
    SurfaceSettings {
        width,
        height,
        format: wgpu::TextureFormat::Bgra8UnormSrgb,
        usage: 17,
        present_mode: wgpu::PresentMode::Fifo,
        alpha_mode: wgpu::CompositeAlphaMode::Opaque,
    }
}

#[test]
fn resize_with_a_zero_side_keeps_the_configuration() {
    let mut config = settings(800, 600);
    assert!(!config.resize(0, 600));
    assert_eq!(config, settings(800, 600));
    assert!(!config.resize(800, 0));
    assert_eq!(config, settings(800, 600));
    assert!(!config.resize(0, 0));
    assert_eq!(config, settings(800, 600));
}

#[test]
fn resize_takes_a_real_size() {
    let mut config = settings(800, 600);
    assert!(config.resize(1024, 768));
    assert_eq!(config, settings(1024, 768));
    assert!(config.resize(1, 1));
    assert_eq!(config, settings(1, 1));
}

#[test]
fn surface_format_prefers_srgb() {
    let formats = vec![
        wgpu::TextureFormat::Rgba8Unorm,
        wgpu::TextureFormat::Bgra8UnormSrgb,
        wgpu::TextureFormat::Rgba8UnormSrgb,
    ];
    assert_eq!(choose_format(&formats), Some(wgpu::TextureFormat::Bgra8UnormSrgb));
    let plain = vec![wgpu::TextureFormat::Bgra8Unorm, wgpu::TextureFormat::Rgba8Unorm];
    assert_eq!(choose_format(&plain), Some(wgpu::TextureFormat::Bgra8Unorm));
    assert_eq!(choose_format(&vec![]), None);
}

#[test]
fn surface_settings_take_the_first_modes() {
    let formats = vec![wgpu::TextureFormat::Bgra8Unorm, wgpu::TextureFormat::Bgra8UnormSrgb];
    let present = vec![wgpu::PresentMode::Mailbox, wgpu::PresentMode::Fifo];
    let alpha = vec![wgpu::CompositeAlphaMode::PreMultiplied, wgpu::CompositeAlphaMode::Opaque];
    let chosen = SurfaceSettings::select((640, 480), &formats, &present, &alpha).expect("settings");
    assert_eq!(
        chosen,
        SurfaceSettings {
            width: 640,
            height: 480,
            format: wgpu::TextureFormat::Bgra8UnormSrgb,
            usage: (wgpu::TextureUsages::RENDER_ATTACHMENT | wgpu::TextureUsages::COPY_SRC).bits(),
            present_mode: wgpu::PresentMode::Mailbox,
            alpha_mode: wgpu::CompositeAlphaMode::PreMultiplied,
        }
    );
    assert_eq!(SurfaceSettings::select((640, 480), &vec![], &present, &alpha), None);
    assert_eq!(SurfaceSettings::select((640, 480), &formats, &vec![], &alpha), None);
    assert_eq!(SurfaceSettings::select((640, 480), &formats, &present, &vec![]), None);
}

#[test]
fn render_targets_are_whole_tiles() {
    assert_eq!(pad_to_tile(0), Some(0));
    assert_eq!(pad_to_tile(1), Some(64));
    assert_eq!(pad_to_tile(64), Some(64));
    assert_eq!(pad_to_tile(65), Some(128));
    assert_eq!(pad_to_tile(800), Some(832));
    assert_eq!(pad_to_tile(600), Some(640));
    assert_eq!(pad_to_tile(1920), Some(1920));
    assert_eq!(pad_to_tile(u32::MAX - 63), Some(4294967232));
    assert_eq!(pad_to_tile(u32::MAX - 62), None);
    assert_eq!(pad_to_tile(u32::MAX), None);
}

#[test]
fn bloom_tiles_round_up() {
    assert_eq!(tile_count(0), 0);
    assert_eq!(tile_count(1), 1);
    assert_eq!(tile_count(16), 1);
    assert_eq!(tile_count(17), 2);
    assert_eq!(tile_count(832), 52);
    assert_eq!(tile_count(u32::MAX), 268435456);
}

#[test]
fn single_precision_bits_of_small_numbers() {
    assert_eq!(single_bits(0), 0);
    assert_eq!(single_bits(1), 0x3f80_0000);
    assert_eq!(single_bits(2), 0x4000_0000);
    assert_eq!(single_bits(3), 0x4040_0000);
    assert_eq!(single_bits(800), 0x4448_0000);
    assert_eq!(single_bits(600), 0x4416_0000);
}

#[test]
fn single_precision_bits_agree_with_the_machine() {
    for n in 0..200_000u32 {
        assert_eq!(single_bits(n), (n as f32).to_bits(), "{}", n);
    }
    for shift in 0..32u32 {
        let p = 1u32 << shift;
        for d in 0..300u32 {
            for n in [p.wrapping_add(d), p.wrapping_sub(d), p.wrapping_add(p / 2).wrapping_add(d)] {
                assert_eq!(single_bits(n), (n as f32).to_bits(), "{}", n);
            }
        }
    }
    let mut x: u32 = 0x1234_5678;
    for _ in 0..200_000 {
        x = x.wrapping_mul(1664525).wrapping_add(1013904223);
        assert_eq!(single_bits(x), (x as f32).to_bits(), "{}", x);
    }
}

#[test]
fn single_precision_rounds_ties_to_even() {
    // 2^24 + 1 lies half way between 2^24 and 2^24 + 2: the even significand wins.
    assert_eq!(single_bits(16_777_217), (16_777_216f32).to_bits());
    assert_eq!(single_bits(16_777_219), (16_777_220f32).to_bits());
    assert_eq!(single_bits(16_777_218), (16_777_218f32).to_bits());
    // The largest numbers round up to 2^32.
    assert_eq!(single_bits(u32::MAX), 0x4f80_0000);
    assert_eq!(single_bits(u32::MAX - 127), 0x4f80_0000);
    assert_eq!(single_bits(u32::MAX - 128), 0x4f7f_ffff);
}

#[test]
fn resolution_is_width_then_height() {
    assert_eq!(resolution((800, 600)), vec![(800f32).to_bits(), (600f32).to_bits()]);
    assert_eq!(resolution((0, 1)), vec![0, (1f32).to_bits()]);
}

#[test]
fn particle_is_eight_words() {
    assert_eq!(PARTICLE_WORDS, 8);
    assert_eq!(PARTICLE_BYTES, 32);
    assert_eq!(N_PARTS, 96304);
    let layout = particle_layout();
    assert_eq!(layout.stride, 32);
    assert_eq!(layout.step, StepMode::Vertex);
    assert_eq!(
        layout.attributes,
        vec![
            Attribute { location: 0, offset: 0, format: AttributeFormat::Float32x3 },
            Attribute { location: 1, offset: 12, format: AttributeFormat::Float32 },
            Attribute { location: 2, offset: 16, format: AttributeFormat::Float32x3 },
            Attribute { location: 3, offset: 28, format: AttributeFormat::Float32 },
        ]
    );
}

#[test]
fn particle_counts() {
    assert_eq!(particle_count(0), Some(0));
    assert_eq!(particle_count(31), Some(0));
    assert_eq!(particle_count(32), Some(1));
    assert_eq!(particle_count(64 * 32), Some(64));
    assert_eq!(particle_count(96304 * 32 + 5), Some(96304));
    assert_eq!(particle_count(usize::MAX), None);
}

#[test]
fn packed_attributes_stand_back_to_back() {
    let layout = packed(&vec![
        AttributeFormat::Float32x2,
        AttributeFormat::Uint32,
        AttributeFormat::Float32x4,
        AttributeFormat::Float32,
    ]);
    assert_eq!(layout.stride, 32);
    assert_eq!(
        layout.attributes,
        vec![
            Attribute { location: 0, offset: 0, format: AttributeFormat::Float32x2 },
            Attribute { location: 1, offset: 8, format: AttributeFormat::Uint32 },
            Attribute { location: 2, offset: 12, format: AttributeFormat::Float32x4 },
            Attribute { location: 3, offset: 28, format: AttributeFormat::Float32 },
        ]
    );
    let nothing = packed(&vec![]);
    assert_eq!(nothing.stride, 0);
    assert!(nothing.attributes.is_empty());
    for format in [
        AttributeFormat::Float32,
        AttributeFormat::Float32x2,
        AttributeFormat::Float32x3,
        AttributeFormat::Float32x4,
        AttributeFormat::Uint32,
    ] {
        assert_eq!(packed(&vec![format]).stride, format.bytes());
    }
}

#[test]
fn fixed_function_defaults() {
    assert_eq!(
        FixedFunction::defaults(),
        FixedFunction {
            winding: Winding::CounterClockwise,
            culling: Culling::BackFaces,
            polygons: Rasterization::Fill,
            unclipped_depth: false,
            conservative: false,
            samples: 1,
            sample_mask: !0,
            alpha_to_coverage: false,
            blending: Blending::Replace,
            write_mask: wgpu::ColorWrites::ALL.bits(),
            depth_stencil: false,
        }
    );
    assert_eq!(COLOR_WRITE_ALL, wgpu::ColorWrites::ALL.bits());
}

#[test]
fn what_to_do_after_a_frame() {
    assert_eq!(after_frame(&Ok(())), Control::Continue);
    assert_eq!(after_frame(&Err(FrameError::Lost)), Control::Reconfigure);
    assert_eq!(after_frame(&Err(FrameError::OutOfMemory)), Control::Exit);
    assert_eq!(after_frame(&Err(FrameError::Timeout)), Control::Continue);
    assert_eq!(after_frame(&Err(FrameError::Outdated)), Control::Continue);
    assert_eq!(after_frame(&Err(FrameError::Rejected(String::from("no")))), Control::Exit);
}

#[test]
fn a_device_result_keeps_its_value() {
    let fine: Result<u32, wgpu::Error> = Ok(7);
    assert_eq!(staged(BuildStage::Pipeline, fine).ok(), Some(7));
}

#[test]
fn usage_bits_are_those_of_the_graphics_api() {
    assert_eq!(USAGE_COPY_SRC, wgpu::BufferUsages::COPY_SRC.bits());
    assert_eq!(USAGE_COPY_DST, wgpu::BufferUsages::COPY_DST.bits());
    assert_eq!(USAGE_VERTEX, wgpu::BufferUsages::VERTEX.bits());
    assert_eq!(USAGE_UNIFORM, wgpu::BufferUsages::UNIFORM.bits());
    assert_eq!(USAGE_STORAGE, wgpu::BufferUsages::STORAGE.bits());
    assert_eq!(TEXTURE_COPY_SRC, wgpu::TextureUsages::COPY_SRC.bits());
    assert_eq!(TEXTURE_BINDING, wgpu::TextureUsages::TEXTURE_BINDING.bits());
    assert_eq!(TEXTURE_STORAGE, wgpu::TextureUsages::STORAGE_BINDING.bits());
    assert_eq!(TEXTURE_RENDER_ATTACHMENT, wgpu::TextureUsages::RENDER_ATTACHMENT.bits());
}

#[test]
fn a_population_is_two_clusters_at_rest() {
    assert_eq!(FULL_BRIGHTNESS, (1.0f32).to_bits());
    assert_eq!(HALF_BRIGHTNESS, (0.5f32).to_bits());
    let draws: Vec<Draw> = (0..6u32).map(|i| Draw { x: 10 + i, y: 20 + i, z: 30 + i, mass: 40 + i }).collect();
    let words = population(&draws);
    assert_eq!(words.len(), 6 * 8);
    for (i, star) in words.chunks(8).enumerate() {
        let i = i as u32;
        let bright = if i < 3 { (1.0f32).to_bits() } else { (0.5f32).to_bits() };
        assert_eq!(star, &[10 + i, 20 + i, 30 + i, 40 + i, 0, 0, 0, bright]);
    }
    assert!(population(&vec![]).is_empty());
    // With an odd number of particles the second cluster has one more.
    let odd = population(&draws[..5].to_vec());
    assert_eq!(odd[7], (1.0f32).to_bits());
    assert_eq!(odd[15], (1.0f32).to_bits());
    assert_eq!(odd[23], (0.5f32).to_bits());
}
