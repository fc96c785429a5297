use std::rc::Rc;

use nbody::binding::{Binding, BindgroupBuilder, BindingResource, SlotEntry, SlotType, Visibility};
use nbody::buffers::UniformBuffer;
use nbody::context::{AddressMode, FilterMode, Gpu, TextureSampler};
use nbody::error::BuildStage;
use nbody::particle::particle_layout;
use nbody::pipelines::{
    ComputePipelineBuilder, FixedFunction, RenderPipelineBuilder, Topology, COMPUTE_ENTRY, DEFAULT_SHADER,
    FRAGMENT_ENTRY, VERTEX_ENTRY,
};
use nbody::stream::CommandStream;

const COUNT: &str = "@group(0) @binding(0) var<storage, read_write> data: array<u32>;\n\
@group(1) @binding(0) var<uniform> step: vec4<u32>;\n\
@compute @workgroup_size(64)\n\
fn cs_main(@builtin(global_invocation_id) id: vec3<u32>) {\n\
    data[id.x] = data[id.x] + step.x;\n\
}\n";

fn gpu() -> Gpu {
    let instance = wgpu::Instance::new(wgpu::InstanceDescriptor {
        backends: wgpu::Backends::all(),
        dx12_shader_compiler: Default::default(),
    });
    let adapter = pollster::block_on(instance.request_adapter(&wgpu::RequestAdapterOptions {
        power_preference: wgpu::PowerPreference::LowPower,
        compatible_surface: None,
        force_fallback_adapter: false,
    }))
    .expect("an adapter");
    Gpu::open(&adapter, wgpu::Limits::downlevel_defaults()).expect("a device")
}

#[test]
fn entry_points_are_fixed() {
    assert_eq!(VERTEX_ENTRY, "vs_main");
    assert_eq!(FRAGMENT_ENTRY, "fs_main");
    assert_eq!(COMPUTE_ENTRY, "cs_main");
}

#[test]
fn a_bare_render_pipeline_uses_the_default_shader() {
    let gpu = gpu();
    let device = gpu.device();
    let pipeline = RenderPipelineBuilder::new()
        .build(&device, &wgpu::TextureFormat::Rgba8Unorm)
        .expect("the default pipeline");
    assert_eq!(pipeline.name(), "Render Pipeline");
    assert_eq!(pipeline.topology(), Topology::TriangleList);
    assert_eq!(pipeline.fixed_function(), FixedFunction::defaults());
    assert!(pipeline.sets().is_empty());
}

#[test]
fn a_render_pipeline_keeps_what_it_was_built_with() {
    let gpu = gpu();
    let device = gpu.device();
    let queue = gpu.queue();
    let uniform = UniformBuffer::new(&gpu, "Matrix", &[0u32; 16]).expect("a uniform");
    assert_eq!(uniform.len(), 16);
    assert_eq!(uniform.buffer().size(), 64);
    let stars = Rc::new(device.create_buffer(&wgpu::BufferDescriptor {
        label: None,
        size: 64 * 32,
        usage: wgpu::BufferUsages::VERTEX,
        mapped_at_creation: false,
    }));
    let shader = "struct Camera { m: mat4x4<f32> };\n\
@group(0) @binding(0) var<uniform> camera: Camera;\n\
@vertex fn vs_main(@location(0) p: vec3<f32>, @location(3) b: f32) -> @builtin(position) vec4<f32> {\n\
    return camera.m * vec4<f32>(p, b);\n\
}\n\
@fragment fn fs_main() -> @location(0) vec4<f32> { return vec4<f32>(1.0, 1.0, 1.0, 1.0); }\n";
    let bindings = BindgroupBuilder::new()
        .resource(Binding { vis: Visibility::vertex(), res: BindingResource::Uniform(uniform.buffer()) });
    let pipeline = RenderPipelineBuilder::new()
        .vert(&device, "Test", shader)
        .frag(&device, "Test", shader)
        .vertex_buffer(particle_layout(), stars)
        .bind_group(&device, bindings)
        .topo(Topology::PointList)
        .name("Points")
        .build(&device, &wgpu::TextureFormat::Rgba8Unorm)
        .expect("the pipeline");
    assert_eq!(pipeline.name(), "Points");
    assert_eq!(pipeline.topology(), Topology::PointList);
    assert_eq!(pipeline.sets().len(), 1);
    assert_eq!(
        pipeline.sets()[0].slots(),
        &vec![SlotEntry { binding: 0, vis: Visibility::vertex(), ty: SlotType::Uniform }]
    );
}

#[test]
fn the_first_refusal_is_the_one_reported() {
    let gpu = gpu();
    let device = gpu.device();
    let wrong = device.create_buffer(&wgpu::BufferDescriptor {
        label: None,
        size: 16,
        usage: wgpu::BufferUsages::STORAGE,
        mapped_at_creation: false,
    });
    let bindings = BindgroupBuilder::new()
        .resource(Binding { vis: Visibility::fragment(), res: BindingResource::Uniform(&wrong) });
    let refused = RenderPipelineBuilder::new()
        .vert(&device, "Test", "this is not a shader")
        .frag(&device, "Test", DEFAULT_SHADER)
        .bind_group(&device, bindings)
        .name("Never")
        .build(&device, &wgpu::TextureFormat::Rgba8Unorm);
    match refused {
        Ok(_) => panic!("a broken shader was accepted"),
        Err(e) => assert_eq!(e.stage, BuildStage::ShaderModule),
    }
    let bindings = BindgroupBuilder::new()
        .resource(Binding { vis: Visibility::fragment(), res: BindingResource::Uniform(&wrong) });
    let refused = RenderPipelineBuilder::new()
        .bind_group(&device, bindings)
        .frag(&device, "Test", "this is not a shader")
        .build(&device, &wgpu::TextureFormat::Rgba8Unorm);
    match refused {
        Ok(_) => panic!("a storage buffer was accepted as a uniform"),
        Err(e) => assert_eq!(e.stage, BuildStage::BindGroup),
    }
}

#[test]
fn a_pipeline_that_does_not_fit_its_shader_is_refused() {
    let gpu = gpu();
    let device = gpu.device();
    // The shader declares two binding sets; the builder is given none.
    let refused = ComputePipelineBuilder::new(&device, "Test", COUNT).name("Count").build(&device);
    match refused {
        Ok(_) => panic!("a pipeline without its binding sets was accepted"),
        Err(e) => assert_eq!(e.stage, BuildStage::Pipeline),
    }
    let refused = ComputePipelineBuilder::new(&device, "Test", "fn nothing() {").build(&device);
    match refused {
        Ok(_) => panic!("a broken shader was accepted"),
        Err(e) => assert_eq!(e.stage, BuildStage::ShaderModule),
    }
}

#[test]
fn binding_sets_are_bound_in_the_order_they_were_added() {
    let gpu = gpu();
    let device = gpu.device();
    let queue = gpu.queue();
    let data = device.create_buffer(&wgpu::BufferDescriptor {
        label: None,
        size: 64 * 4,
        usage: wgpu::BufferUsages::STORAGE | wgpu::BufferUsages::COPY_SRC,
        mapped_at_creation: false,
    });
    let step = UniformBuffer::new(&gpu, "Step", &[3u32, 0, 0, 0]).expect("a uniform");
    let first = BindgroupBuilder::new()
        .resource(Binding { vis: Visibility::compute(), res: BindingResource::Buffer(&data, false) });
    let second = BindgroupBuilder::new()
        .resource(Binding { vis: Visibility::compute(), res: BindingResource::Uniform(step.buffer()) });
    let module = device.create_shader_module(wgpu::ShaderModuleDescriptor {
        label: None,
        source: wgpu::ShaderSource::Wgsl(COUNT.into()),
    });
    let pipeline = ComputePipelineBuilder::with_module(module)
        .bind_group(&device, first)
        .bind_group(&device, second)
        .topo(Topology::LineList)
        .vertex_buffer(particle_layout(), Rc::new(device.create_buffer(&wgpu::BufferDescriptor {
            label: None,
            size: 32,
            usage: wgpu::BufferUsages::VERTEX,
            mapped_at_creation: false,
        })))
        .name("Count")
        .build(&device)
        .expect("the pipeline");
    assert_eq!(pipeline.name(), "Count");
    assert_eq!(pipeline.sets().len(), 2);
    assert_eq!(pipeline.sets()[0].slots()[0].ty, SlotType::Storage { read_only: false });
    assert_eq!(pipeline.sets()[1].slots()[0].ty, SlotType::Uniform);

    let mut stream = CommandStream::new(&gpu, "Count");
    stream.write(&step, &[5, 0, 0, 0]);
    let jobs = vec![
        nbody::stream::ComputeJob { pipeline: &pipeline, grid: (1, 1, 1) },
        nbody::stream::ComputeJob { pipeline: &pipeline, grid: (1, 1, 1) },
    ];
    stream.compute_pass("Count", &jobs);
    assert!(!stream.is_refused());
    let frame = stream.finish().expect("a frame");
    queue.submit(std::iter::once(frame.into_commands()));

    let staging = device.create_buffer(&wgpu::BufferDescriptor {
        label: None,
        size: 64 * 4,
        usage: wgpu::BufferUsages::MAP_READ | wgpu::BufferUsages::COPY_DST,
        mapped_at_creation: false,
    });
    let mut encoder = device.create_command_encoder(&wgpu::CommandEncoderDescriptor { label: None });
    encoder.copy_buffer_to_buffer(&data, 0, &staging, 0, 64 * 4);
    queue.submit(std::iter::once(encoder.finish()));
    let slice = staging.slice(..);
    slice.map_async(wgpu::MapMode::Read, |r| r.expect("mapped"));
    device.poll(wgpu::Maintain::Wait);
    let counted: Vec<u32> = bytemuck::cast_slice(&slice.get_mapped_range()).to_vec();
    // Two dispatches, each adding the step that was written before the pass.
    assert_eq!(counted, vec![10u32; 64]);
}

#[test]
fn a_write_of_the_wrong_length_refuses_the_stream() {
    let gpu = gpu();
    let device = gpu.device();
    let queue = gpu.queue();
    let step = UniformBuffer::new(&gpu, "Step", &[1u32, 2]).expect("a uniform");
    let mut stream = CommandStream::new(&gpu, "Writes");
    stream.write(&step, &[7, 8]);
    assert!(!stream.is_refused());
    stream.write(&step, &[7, 8, 9]);
    assert!(stream.is_refused());
    assert!(stream.finish().is_err());
}

#[test]
fn a_sampler_remembers_its_modes() {
    let gpu = gpu();
    let device = gpu.device();
    let sampler = TextureSampler::new(&device, AddressMode::ClampToEdge, FilterMode::Nearest).expect("a sampler");
    assert_eq!(sampler.addressing(), AddressMode::ClampToEdge);
    assert_eq!(sampler.filtering(), FilterMode::Nearest);
    let sampler = TextureSampler::new(&device, AddressMode::Repeat, FilterMode::Linear).expect("a sampler");
    assert_eq!(sampler.addressing(), AddressMode::Repeat);
    assert_eq!(sampler.filtering(), FilterMode::Linear);
    let _: &wgpu::Sampler = sampler.sampler();
}
