use gpu_hal::accel::AccelerationStructureDescriptor;
use gpu_hal::accel::AccelerationStructureFormat;
use gpu_hal::instance::Instance;
use gpu_hal::instance::InstanceDescriptor;
use gpu_hal::adapter::OpenDevice;
use gpu_hal::adapter::ADAPTER_MEMORY;
use gpu_hal::descriptor::BindGroupDescriptor;
use gpu_hal::descriptor::BindGroupEntry;
use gpu_hal::descriptor::BindGroupLayoutDescriptor;
use gpu_hal::descriptor::BindGroupLayoutEntry;
use gpu_hal::descriptor::BindingType;
use gpu_hal::descriptor::BufferDescriptor;
use gpu_hal::descriptor::BufferMapping;
use gpu_hal::descriptor::ComputePipelineDescriptor;
use gpu_hal::descriptor::EntryPoint;
use gpu_hal::descriptor::NagaShader;
use gpu_hal::descriptor::PipelineLayoutDescriptor;
use gpu_hal::descriptor::ProgrammableStage;
use gpu_hal::descriptor::QuerySetDescriptor;
use gpu_hal::descriptor::RenderPipelineDescriptor;
use gpu_hal::descriptor::SamplerDescriptor;
use gpu_hal::descriptor::ShaderInput;
use gpu_hal::descriptor::ShaderModuleDescriptor;
use gpu_hal::descriptor::TextureDescriptor;
use gpu_hal::descriptor::TextureViewDescriptor;
use gpu_hal::descriptor::SPIRV_MAGIC_NUMBER;
use gpu_hal::device::CommandEncoderDescriptor;
use gpu_hal::device::Device;
use gpu_hal::device::NOT_SPIRV;
use gpu_hal::error::DeviceError;
use gpu_hal::error::PipelineError;
use gpu_hal::error::ShaderError;
use gpu_hal::flags::BindGroupLayoutFlags;
use gpu_hal::flags::InstanceFlags;
use gpu_hal::flags::MemoryFlags;
use gpu_hal::flags::PipelineLayoutFlags;
use gpu_hal::flags::ShaderStages;
use gpu_hal::limits::Features;
use gpu_hal::limits::Limits;
use gpu_hal::command::BufferBinding;
use gpu_hal::queue::Queue;
use gpu_hal::resource::DeviceId;
use gpu_hal::types::AddressMode;
use gpu_hal::types::Backend;
use gpu_hal::types::Extent3d;
use gpu_hal::types::FilterMode;
use gpu_hal::types::ImageSubresourceRange;
use gpu_hal::types::QueryType;
use gpu_hal::types::ShaderStage;
use gpu_hal::types::TextureAspect;
use gpu_hal::types::TextureDimension;
use gpu_hal::types::TextureFormat;
use gpu_hal::types::TextureViewDimension;
use gpu_hal::usage::BufferUses;
use gpu_hal::usage::TextureUses;

fn open() -> (Device, Queue) {
    let desc = InstanceDescriptor {
        name: "tests",
        flags: InstanceFlags::empty(),
        backend: Backend::Empty,
    };
    let instance = Instance::init(&desc).expect("the empty backend is always there");
    let mut adapters = instance.enumerate_adapters();
    let mut exposed = adapters.remove(0);
    let OpenDevice { device, queue } = exposed
        .adapter
        .open(Features::empty(), &Limits::default())
        .expect("default limits are within those of the adapter");
    (device, queue)
}

fn buffer_desc(size: u64, usage: u16) -> BufferDescriptor<'static> {
    BufferDescriptor {
        label: Some("buffer"),
        size,
        usage: BufferUses::from_bits_truncate(usage),
        memory_flags: MemoryFlags::empty(),
    }
}

#[test]
fn a_buffer_that_is_read_before_any_write_maps_without_error() {
    let (mut device, _queue) = open();
    let buffer = device
        .create_buffer(&buffer_desc(256, BufferUses::COPY_DST | BufferUses::MAP_READ))
        .expect("256 bytes fit the budget");
    assert!(device.is_buffer_live(&buffer));
    assert!(!device.is_buffer_mapped(&buffer));
    assert!(device.can_map_buffer(&buffer, &(0..256)));
    let mapping = device.map_buffer(&buffer, 0..256);
    assert_eq!(mapping, Ok(BufferMapping { offset: 0, size: 256, is_coherent: false }));
    assert!(device.is_buffer_mapped(&buffer));
    assert_eq!(device.unmap_buffer(&buffer), Ok(()));
    // A second unmap has no error to return: it is outside what the
    // operation is defined for, and the state says so beforehand.
    assert!(!device.is_buffer_mapped(&buffer));
    assert!(device.can_map_buffer(&buffer, &(0..256)));
    device.destroy_buffer(buffer);
    assert!(device.is_vacant());
}

#[test]
fn mapping_needs_a_mappable_unmapped_buffer_and_a_range_inside_it() {
    let (mut device, _queue) = open();
    let plain = device.create_buffer(&buffer_desc(64, BufferUses::VERTEX)).unwrap();
    assert!(!device.can_map_buffer(&plain, &(0..64)));
    let mappable = device.create_buffer(&buffer_desc(64, BufferUses::MAP_WRITE)).unwrap();
    assert!(device.can_map_buffer(&mappable, &(0..64)));
    assert!(device.can_map_buffer(&mappable, &(16..16)));
    assert!(!device.can_map_buffer(&mappable, &(0..65)));
    assert!(!device.can_map_buffer(&mappable, &(32..16)));
    let mapping = device.map_buffer(&mappable, 16..48).unwrap();
    assert_eq!(mapping.offset, 16);
    assert_eq!(mapping.size, 32);
    assert!(!device.can_map_buffer(&mappable, &(0..64)));
    device.destroy_buffer(plain);
    assert!(!device.can_map_buffer(&plain, &(0..64)));
}

#[test]
fn a_mapping_is_coherent_where_coherent_memory_was_preferred() {
    let (mut device, _queue) = open();
    let desc = BufferDescriptor {
        label: None,
        size: 16,
        usage: BufferUses::from_bits_truncate(BufferUses::MAP_READ),
        memory_flags: MemoryFlags::from_bits_truncate(MemoryFlags::PREFER_COHERENT),
    };
    let buffer = device.create_buffer(&desc).unwrap();
    assert!(device.map_buffer(&buffer, 0..16).unwrap().is_coherent);
}

#[test]
fn buffers_take_their_bytes_from_the_budget_and_give_them_back() {
    let (mut device, _queue) = open();
    assert_eq!(device.memory_budget(), ADAPTER_MEMORY);
    assert_eq!(device.memory_used(), 0);
    let first = device.create_buffer(&buffer_desc(1000, BufferUses::VERTEX)).unwrap();
    let second = device.create_buffer(&buffer_desc(24, BufferUses::INDEX)).unwrap();
    assert_eq!(device.memory_used(), 1024);
    assert_eq!(first.raw.index, 0);
    assert_eq!(second.raw.index, 1);
    device.destroy_buffer(first);
    assert_eq!(device.memory_used(), 24);
    assert!(!device.is_buffer_live(&first));
    assert!(device.is_buffer_live(&second));
    assert_eq!(device.buffer_state(&first), None);
    assert_eq!(device.buffer_state(&second).map(|state| state.size), Some(24));
    let third = device.create_buffer(&buffer_desc(8, BufferUses::INDEX)).unwrap();
    assert_eq!(third.raw.index, 2);
}

#[test]
fn a_buffer_beyond_the_budget_is_out_of_memory() {
    let (mut device, _queue) = open();
    let all = device.create_buffer(&buffer_desc(ADAPTER_MEMORY - 1, BufferUses::VERTEX)).unwrap();
    assert_eq!(
        device.create_buffer(&buffer_desc(2, BufferUses::VERTEX)),
        Err(DeviceError::OutOfMemory)
    );
    assert_eq!(device.memory_used(), ADAPTER_MEMORY - 1);
    let last = device.create_buffer(&buffer_desc(1, BufferUses::VERTEX)).unwrap();
    assert_eq!(device.memory_used(), ADAPTER_MEMORY);
    assert_eq!(
        device.create_buffer(&buffer_desc(u64::MAX, BufferUses::VERTEX)),
        Err(DeviceError::OutOfMemory)
    );
    device.destroy_buffer(all);
    device.destroy_buffer(last);
    assert_eq!(device.memory_used(), 0);
}

#[test]
fn acceleration_structures_take_part_in_the_budget() {
    let (mut device, _queue) = open();
    let desc = AccelerationStructureDescriptor {
        label: None,
        size: 4096,
        format: AccelerationStructureFormat::BottomLevel,
    };
    let structure = device.create_acceleration_structure(&desc).unwrap();
    assert_eq!(device.memory_used(), 4096);
    let state = device.acceleration_structure_state(&structure).unwrap();
    assert_eq!(state.size, 4096);
    assert_eq!(state.format, AccelerationStructureFormat::BottomLevel);
    let too_large = AccelerationStructureDescriptor {
        label: None,
        size: ADAPTER_MEMORY,
        format: AccelerationStructureFormat::TopLevel,
    };
    assert_eq!(
        device.create_acceleration_structure(&too_large),
        Err(DeviceError::OutOfMemory)
    );
    device.destroy_acceleration_structure(structure);
    assert_eq!(device.memory_used(), 0);
    assert_eq!(device.acceleration_structure_state(&structure), None);
}

#[test]
fn a_lost_device_fails_every_operation_that_can_fail() {
    let (mut device, mut queue) = open();
    let buffer = device.create_buffer(&buffer_desc(16, BufferUses::MAP_READ)).unwrap();
    let fence = device.create_fence().unwrap();
    device.lose(&mut queue);
    assert!(device.is_lost());
    assert!(queue.is_lost());
    assert!(!DeviceError::Lost.is_recoverable());
    assert_eq!(
        device.create_buffer(&buffer_desc(16, BufferUses::VERTEX)),
        Err(DeviceError::Lost)
    );
    assert_eq!(device.map_buffer(&buffer, 0..16), Err(DeviceError::Lost));
    assert!(!device.is_buffer_mapped(&buffer));
    assert!(device.create_fence().is_err());
    assert_eq!(device.get_fence_value(&fence), Err(DeviceError::Lost));
    assert_eq!(
        device.create_shader_module(
            &ShaderModuleDescriptor { label: None, runtime_checks: true },
            ShaderInput::SpirV(vec![SPIRV_MAGIC_NUMBER])
        ),
        Err(ShaderError::Device(DeviceError::Lost))
    );
    assert_eq!(queue.submit(&[], &[], None), Err(DeviceError::Lost));
    assert!(queue.is_idle());
    // What was made can still be destroyed.
    device.destroy_buffer(buffer);
    device.destroy_fence(fence);
    assert!(device.is_vacant());
    device.exit(queue);
}

#[test]
fn every_kind_of_resource_is_made_and_destroyed() {
    let (mut device, queue) = open();
    let texture = device
        .create_texture(&TextureDescriptor {
            label: Some("color"),
            size: Extent3d { width: 4, height: 4, depth_or_array_layers: 1 },
            mip_level_count: 1,
            sample_count: 1,
            dimension: TextureDimension::D2,
            format: TextureFormat::Rgba8Unorm,
            usage: TextureUses::from_bits_truncate(TextureUses::COLOR_TARGET),
            memory_flags: MemoryFlags::empty(),
            view_formats: Vec::new(),
        })
        .unwrap();
    assert_eq!(texture.surface, None);
    let view = device
        .create_texture_view(
            &texture,
            &TextureViewDescriptor {
                label: None,
                format: TextureFormat::Rgba8Unorm,
                dimension: TextureViewDimension::D2,
                usage: TextureUses::from_bits_truncate(TextureUses::COLOR_TARGET),
                range: ImageSubresourceRange {
                    aspect: TextureAspect::All,
                    base_mip_level: 0,
                    mip_level_count: None,
                    base_array_layer: 0,
                    array_layer_count: None,
                },
            },
        )
        .unwrap();
    assert_eq!(view.texture, texture);
    let sampler = device
        .create_sampler(&SamplerDescriptor {
            label: None,
            address_modes: [AddressMode::ClampToEdge; 3],
            mag_filter: FilterMode::Nearest,
            min_filter: FilterMode::Nearest,
            mipmap_filter: FilterMode::Nearest,
            compare: None,
            anisotropy_clamp: 1,
            border_color: None,
        })
        .unwrap();
    let entries = [BindGroupLayoutEntry {
        binding: 0,
        visibility: ShaderStages::from_bits_truncate(ShaderStages::COMPUTE),
        ty: BindingType::Buffer,
        count: None,
    }];
    let layout_desc = BindGroupLayoutDescriptor {
        label: None,
        flags: BindGroupLayoutFlags::empty(),
        entries: &entries,
    };
    assert!(layout_desc.is_sorted());
    let bind_group_layout = device.create_bind_group_layout(&layout_desc).unwrap();
    assert_eq!(
        device.bind_group_layout_entries(&bind_group_layout).map(|kept| kept.as_slice()),
        Some(&entries[..])
    );
    let pipeline_layout = device
        .create_pipeline_layout(&PipelineLayoutDescriptor {
            label: None,
            flags: PipelineLayoutFlags::empty(),
            bind_group_layouts: &[bind_group_layout],
            push_constant_ranges: &[],
        })
        .unwrap();
    let buffer = device.create_buffer(&buffer_desc(64, BufferUses::STORAGE_READ)).unwrap();
    let bindings = [BufferBinding { buffer, offset: 0, size: None }];
    let group_entries = [BindGroupEntry { binding: 0, resource_index: 0, count: 1 }];
    let group_desc = BindGroupDescriptor {
        label: None,
        layout: bind_group_layout,
        buffers: &bindings,
        samplers: &[],
        textures: &[],
        entries: &group_entries,
        acceleration_structures: &[],
    };
    assert!(group_desc.fits_layout(device.bind_group_layout_entries(&bind_group_layout).unwrap()));
    let bind_group = device.create_bind_group(&group_desc).unwrap();
    let query_set = device
        .create_query_set(&QuerySetDescriptor { label: None, ty: QueryType::Timestamp, count: 4 })
        .unwrap();
    assert_eq!(query_set.ty, QueryType::Timestamp);
    let fence = device.create_fence().unwrap();
    let encoder = device
        .create_command_encoder(&CommandEncoderDescriptor { label: None, queue: &queue })
        .unwrap();
    assert!(device.is_fence_live(&fence));
    assert!(device.is_command_encoder_live(&encoder));
    assert!(device.is_texture_live(&texture));
    assert!(device.is_texture_view_live(&view));
    assert!(device.is_sampler_live(&sampler));
    assert!(device.is_bind_group_layout_live(&bind_group_layout));
    assert!(device.is_pipeline_layout_live(&pipeline_layout));
    assert!(device.is_bind_group_live(&bind_group));
    assert!(device.is_query_set_live(&query_set));
    assert!(!device.is_vacant());

    device.destroy_command_encoder(encoder);
    device.destroy_fence(fence);
    device.destroy_query_set(query_set);
    device.destroy_bind_group(bind_group);
    device.destroy_buffer(buffer);
    device.destroy_pipeline_layout(pipeline_layout);
    device.destroy_bind_group_layout(bind_group_layout);
    device.destroy_sampler(sampler);
    device.destroy_texture_view(view);
    assert!(!device.is_vacant());
    device.destroy_texture(texture);
    assert!(!device.is_texture_live(&texture));
    assert!(device.is_vacant());
    device.exit(queue);
}

#[test]
fn a_handle_of_another_device_names_nothing_here() {
    let desc = InstanceDescriptor {
        name: "tests",
        flags: InstanceFlags::empty(),
        backend: Backend::Empty,
    };
    let instance = Instance::init(&desc).unwrap();
    let mut adapters = instance.enumerate_adapters();
    let adapter = &mut adapters[0].adapter;
    let mut first = adapter.open(Features::empty(), &Limits::default()).unwrap();
    let second = adapter.open(Features::empty(), &Limits::default()).unwrap();
    assert_eq!(first.device.id(), DeviceId { adapter: 0, serial: 0 });
    assert_eq!(second.device.id(), DeviceId { adapter: 0, serial: 1 });
    assert_eq!(second.queue.device(), second.device.id());
    let buffer = first.device.create_buffer(&buffer_desc(16, BufferUses::VERTEX)).unwrap();
    assert_eq!(buffer.raw.device, first.device.id());
    assert!(first.device.is_buffer_live(&buffer));
    assert!(!second.device.is_buffer_live(&buffer));
    assert_eq!(second.device.buffer_state(&buffer), None);
}

#[test]
fn words_without_the_magic_number_do_not_compile() {
    let (mut device, _queue) = open();
    let desc = ShaderModuleDescriptor { label: Some("shader"), runtime_checks: false };
    assert_eq!(
        device.create_shader_module(&desc, ShaderInput::SpirV(vec![1, 2, 3])),
        Err(ShaderError::Compilation(NOT_SPIRV.to_owned()))
    );
    assert_eq!(
        device.create_shader_module(&desc, ShaderInput::SpirV(Vec::new())),
        Err(ShaderError::Compilation(NOT_SPIRV.to_owned()))
    );
    assert!(device.is_vacant());
    let module = device
        .create_shader_module(&desc, ShaderInput::SpirV(vec![SPIRV_MAGIC_NUMBER, 0x0001_0000]))
        .unwrap();
    assert!(device.is_shader_module_live(&module));
    assert!(device.module_has_entry_point(&module, ShaderStage::Vertex, "anything"));
}

fn shader() -> ShaderInput {
    ShaderInput::Naga(NagaShader {
        entry_points: vec![
            EntryPoint { stage: ShaderStage::Vertex, name: "vs_main".to_owned() },
            EntryPoint { stage: ShaderStage::Compute, name: "cs_main".to_owned() },
        ],
        debug_source: None,
    })
}

#[test]
fn a_pipeline_needs_the_entry_points_that_its_stages_name() {
    let (mut device, _queue) = open();
    let module = device
        .create_shader_module(
            &ShaderModuleDescriptor { label: None, runtime_checks: true },
            shader(),
        )
        .unwrap();
    assert!(device.module_has_entry_point(&module, ShaderStage::Vertex, "vs_main"));
    assert!(!device.module_has_entry_point(&module, ShaderStage::Fragment, "vs_main"));
    assert!(!device.module_has_entry_point(&module, ShaderStage::Vertex, "cs_main"));
    let layout = device
        .create_pipeline_layout(&PipelineLayoutDescriptor {
            label: None,
            flags: PipelineLayoutFlags::empty(),
            bind_group_layouts: &[],
            push_constant_ranges: &[],
        })
        .unwrap();
    let stage = |entry_point: &'static str| ProgrammableStage {
        module,
        entry_point,
        zero_initialize_workgroup_memory: true,
    };
    let compute = device.create_compute_pipeline(&ComputePipelineDescriptor {
        label: None,
        layout,
        stage: stage("cs_main"),
    });
    assert!(compute.is_ok());
    assert_eq!(
        device.create_compute_pipeline(&ComputePipelineDescriptor {
            label: None,
            layout,
            stage: stage("missing"),
        }),
        Err(PipelineError::EntryPoint(ShaderStage::Compute))
    );
    let render = |vertex: &'static str, fragment: Option<&'static str>| RenderPipelineDescriptor {
        label: None,
        layout,
        vertex_buffers: &[],
        vertex_stage: stage(vertex),
        fragment_stage: fragment.map(|name| stage(name)),
        depth_stencil: None,
        sample_count: 1,
        color_targets: &[Some(TextureFormat::Bgra8Unorm)],
        multiview: None,
    };
    assert!(device.create_render_pipeline(&render("vs_main", None)).is_ok());
    assert_eq!(
        device.create_render_pipeline(&render("nope", None)),
        Err(PipelineError::EntryPoint(ShaderStage::Vertex))
    );
    assert_eq!(
        device.create_render_pipeline(&render("vs_main", Some("fs_main"))),
        Err(PipelineError::EntryPoint(ShaderStage::Fragment))
    );
    assert_eq!(
        device.create_render_pipeline(&render("nope", Some("fs_main"))),
        Err(PipelineError::EntryPoint(ShaderStage::Vertex))
    );
}

#[test]
fn a_lost_device_makes_no_pipeline() {
    let (mut device, mut queue) = open();
    let module = device
        .create_shader_module(
            &ShaderModuleDescriptor { label: None, runtime_checks: true },
            shader(),
        )
        .unwrap();
    let layout = device
        .create_pipeline_layout(&PipelineLayoutDescriptor {
            label: None,
            flags: PipelineLayoutFlags::empty(),
            bind_group_layouts: &[],
            push_constant_ranges: &[],
        })
        .unwrap();
    device.lose(&mut queue);
    let stage = ProgrammableStage {
        module,
        entry_point: "cs_main",
        zero_initialize_workgroup_memory: false,
    };
    assert_eq!(
        device.create_compute_pipeline(&ComputePipelineDescriptor {
            label: None,
            layout,
            stage: stage.clone(),
        }),
        Err(PipelineError::Device(DeviceError::Lost))
    );
    assert_eq!(
        device.create_render_pipeline(&RenderPipelineDescriptor {
            label: None,
            layout,
            vertex_buffers: &[],
            vertex_stage: stage,
            fragment_stage: None,
            depth_stencil: None,
            sample_count: 1,
            color_targets: &[],
            multiview: None,
        }),
        Err(PipelineError::Device(DeviceError::Lost))
    );
    assert_eq!(
        device.create_pipeline_layout(&PipelineLayoutDescriptor {
            label: None,
            flags: PipelineLayoutFlags::empty(),
            bind_group_layouts: &[],
            push_constant_ranges: &[],
        }),
        Err(DeviceError::Lost)
    );
    device.destroy_shader_module(module);
    device.destroy_pipeline_layout(layout);
    assert!(device.is_vacant());
}
