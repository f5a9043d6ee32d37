use gpu_hal::accel::is_sound_batch;
use gpu_hal::accel::AccelerationStructureBuildMode;
use gpu_hal::accel::AccelerationStructureEntries;
use gpu_hal::accel::AccelerationStructureInstances;
use gpu_hal::accel::BuildAccelerationStructureDescriptor;
use gpu_hal::instance::Instance;
use gpu_hal::instance::InstanceDescriptor;
use gpu_hal::adapter::OpenDevice;
use gpu_hal::command::Attachment;
use gpu_hal::command::BufferBarrier;
use gpu_hal::command::BufferBinding;
use gpu_hal::command::BufferCopy;
use gpu_hal::command::ColorAttachment;
use gpu_hal::command::Command;
use gpu_hal::command::ComputePassDescriptor;
use gpu_hal::command::RenderPassDescriptor;
use gpu_hal::device::CommandEncoderDescriptor;
use gpu_hal::device::Device;
use gpu_hal::encoder::BoundGroup;
use gpu_hal::encoder::BoundIndexBuffer;
use gpu_hal::encoder::CommandEncoder;
use gpu_hal::encoder::Pass;
use gpu_hal::flags::AccelerationStructureBuildFlags;
use gpu_hal::flags::AttachmentOps;
use gpu_hal::flags::InstanceFlags;
use gpu_hal::flags::ShaderStages;
use gpu_hal::limits::Features;
use gpu_hal::limits::Limits;
use gpu_hal::queue::Queue;
use gpu_hal::resource::AccelerationStructure;
use gpu_hal::resource::BindGroup;
use gpu_hal::resource::Buffer;
use gpu_hal::resource::ComputePipeline;
use gpu_hal::resource::PipelineLayout;
use gpu_hal::resource::QuerySet;
use gpu_hal::resource::RawHandle;
use gpu_hal::resource::RenderPipeline;
use gpu_hal::resource::Texture;
use gpu_hal::resource::TextureView;
use gpu_hal::types::Backend;
use gpu_hal::types::Extent3d;
use gpu_hal::types::IndexFormat;
use gpu_hal::types::QueryType;
use gpu_hal::types::Rect;
use gpu_hal::types::MAX_BIND_GROUPS;
use gpu_hal::usage::BufferUses;
use gpu_hal::usage::TextureUses;

fn open() -> (Device, Queue) {
    let desc = InstanceDescriptor {
        name: "tests",
        flags: InstanceFlags::empty(),
        backend: Backend::Empty,
    };
    let instance = Instance::init(&desc).expect("the empty backend is always there");
    let mut adapters = instance.enumerate_adapters();
    let mut exposed = adapters.remove(0);
    let OpenDevice { device, queue } = exposed
        .adapter
        .open(Features::empty(), &Limits::default())
        .expect("default limits are within those of the adapter");
    (device, queue)
}

fn encoder() -> (Device, Queue, CommandEncoder) {
    let (mut device, queue) = open();
    let encoder = device
        .create_command_encoder(&CommandEncoderDescriptor { label: Some("encoder"), queue: &queue })
        .unwrap();
    (device, queue, encoder)
}

fn raw(device: &Device, index: usize) -> RawHandle {
    RawHandle { device: device.id(), index }
}

#[test]
fn a_new_encoder_is_closed() {
    let (device, _queue, encoder) = encoder();
    assert!(encoder.is_closed());
    assert!(!encoder.is_recording());
    assert_eq!(encoder.pass(), Pass::Outside);
    assert_eq!(encoder.live_command_buffers(), 0);
    assert_eq!(encoder.recorded_commands(), 0);
    assert_eq!(encoder.handle(), raw(&device, 0));
}

#[test]
fn recording_cannot_begin_twice_in_a_row() {
    let (_device, _queue, mut encoder) = encoder();
    assert!(encoder.is_closed());
    assert_eq!(encoder.begin_encoding(Some("first")), Ok(()));
    // The encoder is recording now, so beginning again is not allowed: it
    // has to be closed first.
    assert!(!encoder.is_closed());
    assert!(encoder.is_recording());
    encoder.discard_encoding();
    assert!(encoder.is_closed());
    assert_eq!(encoder.begin_encoding(Some("second")), Ok(()));
    let buffer = encoder.end_encoding().unwrap();
    assert!(encoder.is_closed());
    assert_eq!(encoder.begin_encoding(None), Ok(()));
    encoder.discard_encoding();
    encoder.reset_all(vec![buffer]);
}

#[test]
fn a_command_buffer_holds_what_was_recorded_since_the_beginning() {
    let (device, _queue, mut encoder) = encoder();
    let src = Buffer { raw: raw(&device, 0) };
    let dst = Buffer { raw: raw(&device, 1) };
    encoder.begin_encoding(Some("copy")).unwrap();
    encoder.clear_buffer(&dst, 0..16);
    encoder.discard_encoding();
    assert_eq!(encoder.recorded_commands(), 0);

    encoder.begin_encoding(Some("copy")).unwrap();
    encoder.transition_buffers(vec![BufferBarrier {
        buffer: dst,
        usage: BufferUses::empty()..BufferUses::from_bits_retain(BufferUses::COPY_DST),
    }]);
    encoder.copy_buffer_to_buffer(
        &src,
        &dst,
        vec![BufferCopy { src_offset: 0, dst_offset: 8, size: 8 }],
    );
    encoder.insert_debug_marker("copied");
    assert_eq!(encoder.recorded_commands(), 3);
    let buffer = encoder.end_encoding().unwrap();
    assert_eq!(encoder.recorded_commands(), 0);
    assert_eq!(buffer.encoder(), encoder.handle());
    assert_eq!(buffer.slot(), 0);
    assert_eq!(buffer.label().map(|label| label.as_str()), Some("copy"));
    assert_eq!(
        buffer.commands(),
        &vec![
            Command::TransitionBuffers {
                barriers: vec![BufferBarrier {
                    buffer: dst,
                    usage: BufferUses::empty()..BufferUses::from_bits_retain(BufferUses::COPY_DST),
                }]
            },
            Command::CopyBufferToBuffer {
                src,
                dst,
                regions: vec![BufferCopy { src_offset: 0, dst_offset: 8, size: 8 }]
            },
            Command::InsertDebugMarker { label: "copied".to_owned() },
        ]
    );
    assert!(buffer.surface_writes().is_empty());
    encoder.reset_all(vec![buffer]);
}

#[test]
fn reset_all_frees_every_slot_for_reuse() {
    let (_device, _queue, mut encoder) = encoder();
    for _round in 0..3 {
        encoder.begin_encoding(None).unwrap();
        let first = encoder.end_encoding().unwrap();
        encoder.begin_encoding(None).unwrap();
        let second = encoder.end_encoding().unwrap();
        assert_eq!(first.slot(), 0);
        assert_eq!(second.slot(), 1);
        assert_eq!(encoder.live_command_buffers(), 2);
        let buffers = vec![second, first];
        assert!(encoder.owns_all(&buffers));
        encoder.reset_all(buffers);
        assert_eq!(encoder.live_command_buffers(), 0);
        assert!(encoder.is_closed());
    }
    assert_eq!(encoder.begin_encoding(None), Ok(()));
}

#[test]
fn an_encoder_owns_exactly_the_buffers_it_handed_out() {
    let (mut device, queue, mut encoder) = encoder();
    let mut other = device
        .create_command_encoder(&CommandEncoderDescriptor { label: None, queue: &queue })
        .unwrap();
    encoder.begin_encoding(None).unwrap();
    let mine = encoder.end_encoding().unwrap();
    other.begin_encoding(None).unwrap();
    let theirs = other.end_encoding().unwrap();
    assert!(!encoder.owns_all(&Vec::new()));
    let buffers = vec![theirs];
    assert!(!encoder.owns_all(&buffers));
    assert!(other.owns_all(&buffers));
    other.reset_all(buffers);
    let buffers = vec![mine];
    assert!(encoder.owns_all(&buffers));
    assert!(!other.owns_all(&buffers));
    encoder.reset_all(buffers);
    assert!(encoder.owns_all(&Vec::new()));
}

fn color(view: TextureView) -> Option<ColorAttachment> {
    Some(ColorAttachment {
        target: Attachment {
            view,
            usage: TextureUses::from_bits_retain(TextureUses::COLOR_TARGET),
        },
        resolve_target: None,
        ops: AttachmentOps::from_bits_retain(AttachmentOps::STORE),
        clear_value: [0; 4],
    })
}

fn render_pass(views: Vec<TextureView>, occlusion: Option<QuerySet>) -> RenderPassDescriptor {
    RenderPassDescriptor {
        label: None,
        extent: Extent3d { width: 4, height: 4, depth_or_array_layers: 1 },
        sample_count: 1,
        color_attachments: views.into_iter().map(color).collect(),
        depth_stencil_attachment: None,
        multiview: None,
        timestamp_writes: None,
        occlusion_query_set: occlusion,
    }
}

#[test]
fn passes_are_entered_and_left_in_pairs() {
    let (device, _queue, mut encoder) = encoder();
    let texture = Texture { raw: raw(&device, 0), surface: None };
    let view = TextureView { raw: raw(&device, 0), texture };
    encoder.begin_encoding(None).unwrap();
    assert_eq!(encoder.pass(), Pass::Outside);
    encoder.begin_render_pass(render_pass(vec![view], None));
    assert_eq!(encoder.pass(), Pass::Render);
    encoder.set_render_pipeline(&RenderPipeline { raw: raw(&device, 0) });
    encoder.set_viewport(
        &Rect { x: 0, y: 0, w: 4f32.to_bits(), h: 4f32.to_bits() },
        0f32.to_bits()..1f32.to_bits(),
    );
    encoder.set_scissor_rect(&Rect { x: 0, y: 0, w: 4, h: 4 });
    encoder.draw(0, 3, 0, 1);
    encoder.end_render_pass();
    assert_eq!(encoder.pass(), Pass::Outside);
    encoder.begin_compute_pass(ComputePassDescriptor { label: None, timestamp_writes: None });
    assert_eq!(encoder.pass(), Pass::Compute);
    encoder.set_compute_pipeline(&ComputePipeline { raw: raw(&device, 0) });
    encoder.dispatch([1, 2, 3]);
    encoder.end_compute_pass();
    assert_eq!(encoder.pass(), Pass::Outside);
    let buffer = encoder.end_encoding().unwrap();
    assert_eq!(buffer.commands().len(), 10);
    assert_eq!(buffer.commands()[4], Command::Draw {
        first_vertex: 0,
        vertex_count: 3,
        first_instance: 0,
        instance_count: 1
    });
    assert_eq!(buffer.commands()[5], Command::EndRenderPass);
    assert_eq!(buffer.commands()[8], Command::Dispatch { count: [1, 2, 3] });
    encoder.reset_all(vec![buffer]);
}

#[test]
fn entering_a_pass_unbinds_every_bind_group() {
    let (device, _queue, mut encoder) = encoder();
    let layout = PipelineLayout { raw: raw(&device, 0) };
    let group = BindGroup { raw: raw(&device, 0) };
    encoder.begin_encoding(None).unwrap();
    encoder.begin_compute_pass(ComputePassDescriptor { label: None, timestamp_writes: None });
    encoder.set_bind_group(&layout, 0, &group, &[]);
    encoder.set_bind_group(&layout, 1, &group, &[16]);
    assert!(encoder.is_bind_group_valid(0));
    assert!(encoder.is_bind_group_valid(1));
    encoder.end_compute_pass();
    encoder.begin_compute_pass(ComputePassDescriptor { label: None, timestamp_writes: None });
    for index in 0..MAX_BIND_GROUPS as u32 {
        assert!(!encoder.is_bind_group_valid(index));
    }
    encoder.end_compute_pass();
    encoder.discard_encoding();
}

#[test]
fn entering_a_pass_unbinds_pipelines_and_buffers() {
    let (device, _queue, mut encoder) = encoder();
    let layout = PipelineLayout { raw: raw(&device, 0) };
    let group = BindGroup { raw: raw(&device, 0) };
    let pipeline = RenderPipeline { raw: raw(&device, 0) };
    let binding = BufferBinding { buffer: Buffer { raw: raw(&device, 0) }, offset: 0, size: None };
    encoder.begin_encoding(None).unwrap();
    encoder.begin_render_pass(render_pass(Vec::new(), None));
    encoder.set_render_pipeline(&pipeline);
    encoder.set_index_buffer(binding, IndexFormat::Uint32);
    encoder.set_vertex_buffer(3, binding);
    encoder.set_bind_group(&layout, 1, &group, &[]);
    assert_eq!(encoder.render_pipeline(), Some(pipeline));
    assert_eq!(
        encoder.index_buffer(),
        Some(BoundIndexBuffer { binding, format: IndexFormat::Uint32 })
    );
    assert_eq!(encoder.vertex_buffer(3), Some(binding));
    assert_eq!(encoder.vertex_buffer(2), None);
    assert_eq!(encoder.vertex_buffer(16), None);
    assert_eq!(encoder.bind_group(1), Some(BoundGroup { layout, group }));
    assert_eq!(encoder.bind_group(8), None);
    encoder.end_render_pass();
    encoder.begin_compute_pass(ComputePassDescriptor { label: None, timestamp_writes: None });
    assert_eq!(encoder.render_pipeline(), None);
    assert_eq!(encoder.compute_pipeline(), None);
    assert_eq!(encoder.index_buffer(), None);
    assert_eq!(encoder.vertex_buffer(3), None);
    assert_eq!(encoder.bind_group(1), None);
    let compute = ComputePipeline { raw: raw(&device, 0) };
    encoder.set_compute_pipeline(&compute);
    assert_eq!(encoder.compute_pipeline(), Some(compute));
    encoder.end_compute_pass();
    encoder.begin_render_pass(render_pass(Vec::new(), None));
    assert_eq!(encoder.compute_pipeline(), None);
    encoder.end_render_pass();
    encoder.discard_encoding();
}

#[test]
fn a_bind_group_is_valid_with_one_layout_all_the_way_down() {
    let (device, _queue, mut encoder) = encoder();
    let first = PipelineLayout { raw: raw(&device, 0) };
    let second = PipelineLayout { raw: raw(&device, 1) };
    let group = BindGroup { raw: raw(&device, 0) };
    encoder.begin_encoding(None).unwrap();
    encoder.begin_render_pass(render_pass(Vec::new(), None));
    encoder.set_bind_group(&first, 2, &group, &[]);
    assert!(!encoder.is_bind_group_valid(2));
    encoder.set_bind_group(&first, 0, &group, &[]);
    assert!(encoder.is_bind_group_valid(0));
    assert!(!encoder.is_bind_group_valid(2));
    encoder.set_bind_group(&first, 1, &group, &[]);
    assert!(encoder.is_bind_group_valid(1));
    assert!(encoder.is_bind_group_valid(2));
    // Another layout at a lower index disturbs everything above it.
    encoder.set_bind_group(&second, 0, &group, &[]);
    assert!(encoder.is_bind_group_valid(0));
    assert!(!encoder.is_bind_group_valid(1));
    assert!(!encoder.is_bind_group_valid(2));
    // The same layout at a lower index disturbs nothing.
    encoder.set_bind_group(&first, 0, &group, &[]);
    assert!(encoder.is_bind_group_valid(2));
    assert!(!encoder.is_bind_group_valid(3));
    assert!(!encoder.is_bind_group_valid(MAX_BIND_GROUPS as u32));
    assert!(!encoder.is_bind_group_valid(u32::MAX));
    encoder.end_render_pass();
    let buffer = encoder.end_encoding().unwrap();
    assert_eq!(buffer.commands()[1], Command::SetBindGroup {
        layout: first,
        index: 2,
        group,
        dynamic_offsets: Vec::new()
    });
    encoder.reset_all(vec![buffer]);
}

#[test]
fn push_constants_and_bindings_are_recorded_as_given() {
    let (device, _queue, mut encoder) = encoder();
    let layout = PipelineLayout { raw: raw(&device, 0) };
    let buffer = Buffer { raw: raw(&device, 3) };
    let binding = BufferBinding { buffer, offset: 64, size: Some(128) };
    encoder.begin_encoding(None).unwrap();
    encoder.begin_render_pass(render_pass(Vec::new(), None));
    encoder.set_push_constants(
        &layout,
        ShaderStages::from_bits_retain(ShaderStages::VERTEX),
        8,
        &[1, 2, 3],
    );
    encoder.set_index_buffer(binding, IndexFormat::Uint16);
    encoder.set_vertex_buffer(15, binding);
    encoder.set_blend_constants(&[1f32.to_bits(); 4]);
    encoder.set_stencil_reference(7);
    encoder.draw_indexed(0, 6, -1, 0, 1);
    encoder.end_render_pass();
    let recorded = encoder.end_encoding().unwrap();
    assert_eq!(recorded.commands()[1], Command::SetPushConstants {
        layout,
        stages: ShaderStages::from_bits_retain(ShaderStages::VERTEX),
        offset_bytes: 8,
        data: vec![1, 2, 3]
    });
    assert_eq!(recorded.commands()[2], Command::SetIndexBuffer {
        binding,
        format: IndexFormat::Uint16
    });
    assert_eq!(recorded.commands()[3], Command::SetVertexBuffer { index: 15, binding });
    assert_eq!(recorded.commands()[6], Command::DrawIndexed {
        first_index: 0,
        index_count: 6,
        base_vertex: -1,
        first_instance: 0,
        instance_count: 1
    });
    encoder.reset_all(vec![recorded]);
}

#[test]
fn an_occlusion_query_belongs_to_the_set_of_its_pass() {
    let (device, _queue, mut encoder) = encoder();
    let occlusion = QuerySet { raw: raw(&device, 0), ty: QueryType::Occlusion };
    let other = QuerySet { raw: raw(&device, 1), ty: QueryType::Occlusion };
    let timestamps = QuerySet { raw: raw(&device, 2), ty: QueryType::Timestamp };
    encoder.begin_encoding(None).unwrap();
    assert!(!encoder.is_query_allowed(&occlusion));
    assert!(encoder.is_query_allowed(&timestamps));
    encoder.write_timestamp(&timestamps, 0);
    encoder.begin_render_pass(render_pass(Vec::new(), Some(occlusion)));
    assert!(encoder.is_query_allowed(&occlusion));
    assert!(!encoder.is_query_allowed(&other));
    encoder.begin_query(&occlusion, 0);
    encoder.end_query(&occlusion, 0);
    encoder.end_render_pass();
    assert!(!encoder.is_query_allowed(&occlusion));
    encoder.reset_queries(&timestamps, 0..1);
    encoder.copy_query_results(&timestamps, 0..1, &Buffer { raw: raw(&device, 0) }, 0, 8);
    encoder.discard_encoding();
}

#[test]
fn writes_to_surface_textures_are_noted() {
    let (device, _queue, mut encoder) = encoder();
    let plain = Texture { raw: raw(&device, 0), surface: None };
    let shown = Texture { raw: raw(&device, 0), surface: Some(0) };
    let other = Texture { raw: raw(&device, 1), surface: Some(0) };
    let src = Buffer { raw: raw(&device, 0) };
    encoder.begin_encoding(None).unwrap();
    encoder.copy_buffer_to_texture(&src, &plain, Vec::new());
    encoder.copy_texture_to_buffer(&shown, TextureUses::empty(), &src, Vec::new());
    let buffer = encoder.end_encoding().unwrap();
    assert!(!buffer.writes_surface_texture(&plain));
    assert!(!buffer.writes_surface_texture(&shown));

    encoder.begin_encoding(None).unwrap();
    encoder.copy_buffer_to_texture(&src, &shown, Vec::new());
    encoder.begin_render_pass(render_pass(
        vec![
            TextureView { raw: raw(&device, 0), texture: plain },
            TextureView { raw: raw(&device, 1), texture: other },
        ],
        None,
    ));
    encoder.end_render_pass();
    let writing = encoder.end_encoding().unwrap();
    assert!(writing.writes_surface_texture(&shown));
    assert!(writing.writes_surface_texture(&other));
    assert!(!writing.writes_surface_texture(&plain));
    assert_eq!(writing.surface_writes(), &vec![shown, other]);
    encoder.reset_all(vec![buffer, writing]);
}

fn build(
    destination: usize,
    source: Option<usize>,
    scratch: usize,
    device: &Device,
) -> BuildAccelerationStructureDescriptor {
    BuildAccelerationStructureDescriptor {
        entries: AccelerationStructureEntries::Instances(AccelerationStructureInstances {
            buffer: None,
            offset: 0,
            count: 1,
        }),
        mode: AccelerationStructureBuildMode::Build,
        flags: AccelerationStructureBuildFlags::empty(),
        source_acceleration_structure: source
            .map(|index| AccelerationStructure { raw: raw(device, index) }),
        destination_acceleration_structure: AccelerationStructure { raw: raw(device, destination) },
        scratch_buffer: Buffer { raw: raw(device, scratch) },
        scratch_buffer_offset: 0,
    }
}

#[test]
fn builds_of_one_call_must_not_get_in_each_others_way() {
    let (device, _queue, mut encoder) = encoder();
    assert!(is_sound_batch(&Vec::new()));
    assert!(is_sound_batch(&vec![build(0, None, 0, &device)]));
    assert!(is_sound_batch(&vec![build(0, None, 0, &device), build(1, None, 1, &device)]));
    // The same scratch buffer twice.
    assert!(!is_sound_batch(&vec![build(0, None, 0, &device), build(1, None, 0, &device)]));
    // The same destination twice.
    assert!(!is_sound_batch(&vec![build(0, None, 0, &device), build(0, None, 1, &device)]));
    // One build reads what another writes.
    assert!(!is_sound_batch(&vec![build(0, None, 0, &device), build(1, Some(0), 1, &device)]));
    assert!(!is_sound_batch(&vec![build(1, Some(0), 1, &device), build(0, None, 0, &device)]));
    // A build may read what it writes itself.
    assert!(is_sound_batch(&vec![build(0, Some(0), 0, &device), build(1, Some(2), 1, &device)]));
    assert!(!is_sound_batch(&vec![
        build(0, None, 0, &device),
        build(1, None, 1, &device),
        build(2, None, 1, &device)
    ]));

    let batch = vec![build(0, None, 0, &device), build(1, None, 1, &device)];
    encoder.begin_encoding(None).unwrap();
    encoder.build_acceleration_structures(2, batch);
    let buffer = encoder.end_encoding().unwrap();
    assert_eq!(buffer.commands(), &vec![Command::BuildAccelerationStructures {
        descriptors: vec![build(0, None, 0, &device), build(1, None, 1, &device)]
    }]);
    encoder.reset_all(vec![buffer]);
}
