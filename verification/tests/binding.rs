use nbody::binding::{
    device_entries, slot_layout, Binding, BindgroupBuilder, BindingKind, BindingResource,
    BindingShape, SlotEntry, SlotType, StorageAccess, Visibility,
};
use nbody::context::Gpu;
use nbody::error::BuildStage;

fn gpu() -> Gpu {
    let instance = wgpu::Instance::new(wgpu::InstanceDescriptor {
        backends: wgpu::Backends::all(),
        dx12_shader_compiler: Default::default(),
    });
    let adapter = pollster::block_on(instance.request_adapter(&wgpu::RequestAdapterOptions {
        power_preference: wgpu::PowerPreference::LowPower,
        compatible_surface: None,
        force_fallback_adapter: false,
    }))
    .expect("an adapter");
    Gpu::open(&adapter, wgpu::Limits::downlevel_defaults()).expect("a device")
}

fn shape(vis: Visibility, kind: BindingKind) -> BindingShape {
    BindingShape { vis, kind }
}

#[test]
fn uniform_then_texture_then_storage_texture() {
    let frag = Visibility::fragment();
    let comp = Visibility::compute();
    let shapes = vec![
        shape(frag, BindingKind::Uniform),
        shape(frag, BindingKind::Texture),
        shape(
            comp,
            BindingKind::TextureStore {
                format: wgpu::TextureFormat::Rgba8Unorm,
                access: StorageAccess::WriteOnly,
            },
        ),
        shape(comp, BindingKind::Buffer { read_only: false }),
    ];
    let layout = slot_layout(&shapes);
    assert_eq!(
        layout,
        vec![
            SlotEntry { binding: 0, vis: frag, ty: SlotType::Uniform },
            SlotEntry { binding: 1, vis: frag, ty: SlotType::Texture },
            SlotEntry { binding: 2, vis: frag, ty: SlotType::Sampler },
            SlotEntry {
                binding: 3,
                vis: comp,
                ty: SlotType::StorageTexture {
                    format: wgpu::TextureFormat::Rgba8Unorm,
                    access: StorageAccess::WriteOnly,
                },
            },
            SlotEntry { binding: 4, vis: comp, ty: SlotType::Storage { read_only: false } },
        ]
    );
}

#[test]
fn device_entries_match_the_graphics_api() {
    let all = Visibility::vertex().union(Visibility::fragment()).union(Visibility::compute());
    let layout = vec![
        SlotEntry { binding: 0, vis: Visibility::vertex(), ty: SlotType::Uniform },
        SlotEntry { binding: 1, vis: Visibility::fragment(), ty: SlotType::Storage { read_only: true } },
        SlotEntry { binding: 2, vis: Visibility::compute(), ty: SlotType::Texture },
        SlotEntry { binding: 3, vis: all, ty: SlotType::Sampler },
        SlotEntry {
            binding: 7,
            vis: Visibility::compute(),
            ty: SlotType::StorageTexture {
                format: wgpu::TextureFormat::Rgba8Unorm,
                access: StorageAccess::ReadWrite,
            },
        },
    ];
    let entries = device_entries(&layout);
    assert_eq!(entries.len(), 5);
    assert_eq!(entries[0].binding, 0);
    assert_eq!(entries[0].visibility, wgpu::ShaderStages::VERTEX);
    assert_eq!(
        entries[0].ty,
        wgpu::BindingType::Buffer {
            ty: wgpu::BufferBindingType::Uniform,
            has_dynamic_offset: false,
            min_binding_size: None,
        }
    );
    assert_eq!(entries[1].visibility, wgpu::ShaderStages::FRAGMENT);
    assert_eq!(
        entries[1].ty,
        wgpu::BindingType::Buffer {
            ty: wgpu::BufferBindingType::Storage { read_only: true },
            has_dynamic_offset: false,
            min_binding_size: None,
        }
    );
    assert_eq!(entries[2].visibility, wgpu::ShaderStages::COMPUTE);
    assert_eq!(
        entries[2].ty,
        wgpu::BindingType::Texture {
            sample_type: wgpu::TextureSampleType::Float { filterable: true },
            view_dimension: wgpu::TextureViewDimension::D2,
            multisampled: false,
        }
    );
    assert_eq!(entries[3].binding, 3);
    assert_eq!(entries[3].visibility, wgpu::ShaderStages::all());
    assert_eq!(entries[3].ty, wgpu::BindingType::Sampler(wgpu::SamplerBindingType::Filtering));
    assert_eq!(entries[4].binding, 7);
    assert_eq!(
        entries[4].ty,
        wgpu::BindingType::StorageTexture {
            access: wgpu::StorageTextureAccess::ReadWrite,
            format: wgpu::TextureFormat::Rgba8Unorm,
            view_dimension: wgpu::TextureViewDimension::D2,
        }
    );
    assert!(entries.iter().all(|e| e.count.is_none()));
}

#[test]
fn build_on_a_device() {
    let gpu = gpu();
    let device = gpu.device();
    let uniform = device.create_buffer(&wgpu::BufferDescriptor {
        label: None,
        size: 16,
        usage: wgpu::BufferUsages::UNIFORM | wgpu::BufferUsages::COPY_DST,
        mapped_at_creation: false,
    });
    let storage = device.create_buffer(&wgpu::BufferDescriptor {
        label: None,
        size: 256,
        usage: wgpu::BufferUsages::STORAGE,
        mapped_at_creation: false,
    });
    let set = BindgroupBuilder::new()
        .resource(Binding { vis: Visibility::compute(), res: BindingResource::Buffer(&storage, false) })
        .resource(Binding { vis: Visibility::compute(), res: BindingResource::Uniform(&uniform) })
        .build(&device)
        .expect("the device accepts the set");
    assert_eq!(
        set.slots(),
        &vec![
            SlotEntry { binding: 0, vis: Visibility::compute(), ty: SlotType::Storage { read_only: false } },
            SlotEntry { binding: 1, vis: Visibility::compute(), ty: SlotType::Uniform },
        ]
    );
}

#[test]
fn build_reports_what_the_device_refuses() {
    let gpu = gpu();
    let device = gpu.device();
    // A buffer without the uniform usage cannot be bound as a uniform.
    let wrong = device.create_buffer(&wgpu::BufferDescriptor {
        label: None,
        size: 16,
        usage: wgpu::BufferUsages::STORAGE,
        mapped_at_creation: false,
    });
    let refused = BindgroupBuilder::new()
        .resource(Binding { vis: Visibility::fragment(), res: BindingResource::Uniform(&wrong) })
        .build(&device);
    match refused {
        Ok(_) => panic!("the device accepted a storage buffer as a uniform"),
        Err(e) => {
            assert_eq!(e.stage, BuildStage::BindGroup);
            assert!(!e.message.is_empty());
        }
    }
}
