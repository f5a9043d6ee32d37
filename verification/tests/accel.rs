use gpu_hal::accel::build_sizes;
use gpu_hal::accel::AccelerationStructureAABBs;
use gpu_hal::accel::AccelerationStructureBuildMode;
use gpu_hal::accel::AccelerationStructureBuildSizes;
use gpu_hal::accel::AccelerationStructureDescriptor;
use gpu_hal::accel::AccelerationStructureEntries;
use gpu_hal::accel::AccelerationStructureFormat;
use gpu_hal::accel::AccelerationStructureInstances;
use gpu_hal::accel::AccelerationStructureTriangleIndices;
use gpu_hal::accel::AccelerationStructureTriangles;
use gpu_hal::accel::BuildAccelerationStructureDescriptor;
use gpu_hal::accel::GetAccelerationStructureBuildSizesDescriptor;
use gpu_hal::instance::Instance;
use gpu_hal::instance::InstanceDescriptor;
use gpu_hal::command::Command;
use gpu_hal::descriptor::BufferDescriptor;
use gpu_hal::device::CommandEncoderDescriptor;
use gpu_hal::flags::AccelerationStructureBuildFlags;
use gpu_hal::flags::AccelerationStructureGeometryFlags;
use gpu_hal::flags::InstanceFlags;
use gpu_hal::flags::MemoryFlags;
use gpu_hal::limits::Features;
use gpu_hal::limits::Limits;
use gpu_hal::resource::Buffer;
use gpu_hal::resource::DeviceId;
use gpu_hal::resource::RawHandle;
use gpu_hal::types::Backend;
use gpu_hal::types::IndexFormat;
use gpu_hal::types::VertexFormat;
use gpu_hal::usage::BufferUses;

fn buffer(index: usize) -> Buffer {
    Buffer { raw: RawHandle { device: DeviceId { adapter: 0, serial: 0 }, index } }
}

fn mesh(
    vertex_count: u32,
    indices: Option<u32>,
    vertex_buffer: usize,
) -> AccelerationStructureTriangles {
    AccelerationStructureTriangles {
        vertex_buffer: Some(buffer(vertex_buffer)),
        vertex_format: VertexFormat::Float32x3,
        first_vertex: 0,
        vertex_count,
        vertex_stride: 12,
        indices: indices.map(|count| AccelerationStructureTriangleIndices {
            format: IndexFormat::Uint32,
            buffer: Some(buffer(vertex_buffer + 100)),
            offset: 0,
            count,
        }),
        transform: None,
        flags: AccelerationStructureGeometryFlags::from_bits_retain(
            AccelerationStructureGeometryFlags::OPAQUE,
        ),
    }
}

fn boxes(count: u32, source: usize) -> AccelerationStructureAABBs {
    AccelerationStructureAABBs {
        buffer: Some(buffer(source)),
        offset: 0,
        count,
        stride: 24,
        flags: AccelerationStructureGeometryFlags::empty(),
    }
}

fn instances(count: u32) -> AccelerationStructureEntries {
    AccelerationStructureEntries::Instances(AccelerationStructureInstances {
        buffer: Some(buffer(0)),
        offset: 0,
        count,
    })
}

fn allow_update() -> AccelerationStructureBuildFlags {
    AccelerationStructureBuildFlags::from_bits_retain(AccelerationStructureBuildFlags::ALLOW_UPDATE)
}

#[test]
fn sizes_follow_the_number_of_primitives() {
    assert_eq!(
        build_sizes(&instances(0), AccelerationStructureBuildFlags::empty()),
        AccelerationStructureBuildSizes {
            acceleration_structure_size: 256,
            update_scratch_size: 0,
            build_scratch_size: 0,
        }
    );
    assert_eq!(
        build_sizes(&instances(10), allow_update()),
        AccelerationStructureBuildSizes {
            acceleration_structure_size: 256 + 64 * 10,
            update_scratch_size: 16 * 10,
            build_scratch_size: 32 * 10,
        }
    );
    // Nine vertices make three triangles; twelve indices make four.
    let meshes =
        AccelerationStructureEntries::Triangles(vec![mesh(9, None, 0), mesh(100, Some(12), 1)]);
    assert_eq!(meshes.count_primitives(), 7);
    assert_eq!(meshes.format(), AccelerationStructureFormat::BottomLevel);
    assert_eq!(
        build_sizes(&meshes, AccelerationStructureBuildFlags::empty()),
        AccelerationStructureBuildSizes {
            acceleration_structure_size: 256 + 64 * 7,
            update_scratch_size: 0,
            build_scratch_size: 32 * 7,
        }
    );
    let lists = AccelerationStructureEntries::AABBs(vec![boxes(5, 0), boxes(6, 1)]);
    assert_eq!(lists.count_primitives(), 11);
    assert_eq!(instances(3).format(), AccelerationStructureFormat::TopLevel);
    assert_eq!(AccelerationStructureBuildSizes::default().acceleration_structure_size, 0);
}

#[test]
fn counts_beyond_a_u32_are_added_up_in_full() {
    let many = AccelerationStructureEntries::AABBs(vec![boxes(u32::MAX, 0); 5]);
    assert_eq!(many.count_primitives(), 5 * u32::MAX as u64);
    let sizes = build_sizes(&many, allow_update());
    assert_eq!(sizes.acceleration_structure_size, 256 + 64 * 5 * u32::MAX as u64);
    assert_eq!(sizes.build_scratch_size, 32 * 5 * u32::MAX as u64);
    assert_eq!(sizes.update_scratch_size, 16 * 5 * u32::MAX as u64);
}

#[test]
fn fewer_primitives_never_need_more_memory() {
    let flags = allow_update();
    let mut previous = build_sizes(&instances(0), flags);
    for count in 1..200 {
        let sizes = build_sizes(&instances(count), flags);
        assert!(previous.acceleration_structure_size <= sizes.acceleration_structure_size);
        assert!(previous.build_scratch_size <= sizes.build_scratch_size);
        assert!(previous.update_scratch_size <= sizes.update_scratch_size);
        previous = sizes;
    }
    let larger =
        AccelerationStructureEntries::Triangles(vec![mesh(30, None, 0), mesh(30, None, 1)]);
    let fewer_groups = AccelerationStructureEntries::Triangles(vec![mesh(30, None, 0)]);
    let fewer_triangles =
        AccelerationStructureEntries::Triangles(vec![mesh(30, None, 0), mesh(12, None, 1)]);
    let most = build_sizes(&larger, flags);
    for smaller in [&fewer_groups, &fewer_triangles] {
        let sizes = build_sizes(smaller, flags);
        assert!(sizes.acceleration_structure_size <= most.acceleration_structure_size);
        assert!(sizes.build_scratch_size <= most.build_scratch_size);
        assert!(sizes.update_scratch_size <= most.update_scratch_size);
    }
}

#[test]
fn the_shape_is_everything_but_buffers_and_offsets() {
    let built = AccelerationStructureEntries::Triangles(vec![mesh(9, Some(12), 0)]);
    let other_buffers = AccelerationStructureEntries::Triangles(vec![mesh(9, Some(12), 7)]);
    assert!(built.has_same_shape(&other_buffers));
    assert!(other_buffers.has_same_shape(&built));
    let other_count = AccelerationStructureEntries::Triangles(vec![mesh(9, Some(15), 0)]);
    assert!(!built.has_same_shape(&other_count));
    let no_indices = AccelerationStructureEntries::Triangles(vec![mesh(9, None, 0)]);
    assert!(!built.has_same_shape(&no_indices));
    let more_groups =
        AccelerationStructureEntries::Triangles(vec![mesh(9, Some(12), 0), mesh(9, Some(12), 0)]);
    assert!(!built.has_same_shape(&more_groups));
    let mut moved = mesh(9, Some(12), 0);
    moved.first_vertex = 3;
    assert!(built.has_same_shape(&AccelerationStructureEntries::Triangles(vec![moved])));
    let mut strided = mesh(9, Some(12), 0);
    strided.vertex_stride = 16;
    assert!(!built.has_same_shape(&AccelerationStructureEntries::Triangles(vec![strided])));
    assert!(!built.has_same_shape(&instances(4)));
    assert!(instances(4).has_same_shape(&instances(4)));
    assert!(!instances(4).has_same_shape(&instances(5)));
    let lists = AccelerationStructureEntries::AABBs(vec![boxes(5, 0)]);
    assert!(lists.has_same_shape(&AccelerationStructureEntries::AABBs(vec![boxes(5, 9)])));
    assert!(!lists.has_same_shape(&AccelerationStructureEntries::AABBs(vec![boxes(6, 0)])));
    assert!(!lists.has_same_shape(&built));
}

#[test]
fn an_update_in_place_changes_data_and_no_size() {
    let desc = InstanceDescriptor {
        name: "tests",
        flags: InstanceFlags::empty(),
        backend: Backend::Empty,
    };
    let instance = Instance::init(&desc).unwrap();
    let mut adapters = instance.enumerate_adapters();
    let mut open = adapters[0]
        .adapter
        .open(
            Features::from_bits_retain(Features::RAY_TRACING_ACCELERATION_STRUCTURE),
            &Limits::default(),
        )
        .unwrap();
    let device = &mut open.device;

    let built_from = AccelerationStructureEntries::Triangles(vec![mesh(9, Some(12), 0)]);
    let updated_from = AccelerationStructureEntries::Triangles(vec![mesh(9, Some(12), 5)]);
    let question = GetAccelerationStructureBuildSizesDescriptor {
        entries: built_from.clone(),
        flags: allow_update(),
    };
    let sizes = device.get_acceleration_structure_build_sizes(&question);
    assert_eq!(sizes, build_sizes(&built_from, allow_update()));
    let structure = device
        .create_acceleration_structure(&AccelerationStructureDescriptor {
            label: Some("blas"),
            size: sizes.acceleration_structure_size,
            format: built_from.format(),
        })
        .unwrap();
    let scratch = device
        .create_buffer(&BufferDescriptor {
            label: Some("scratch"),
            size: sizes.build_scratch_size,
            usage: BufferUses::from_bits_retain(BufferUses::ACCELERATION_STRUCTURE_SCRATCH),
            memory_flags: MemoryFlags::empty(),
        })
        .unwrap();
    let before = device.acceleration_structure_state(&structure);

    let build = BuildAccelerationStructureDescriptor {
        entries: built_from.clone(),
        mode: AccelerationStructureBuildMode::Build,
        flags: allow_update(),
        source_acceleration_structure: None,
        destination_acceleration_structure: structure,
        scratch_buffer: scratch,
        scratch_buffer_offset: 0,
    };
    let update = BuildAccelerationStructureDescriptor {
        entries: updated_from.clone(),
        mode: AccelerationStructureBuildMode::Update,
        ..build.clone()
    };
    assert!(!build.is_update_in_place());
    assert!(update.is_update_in_place());
    // Only the buffers differ between the build and the update.
    assert_ne!(built_from, updated_from);
    assert!(updated_from.has_same_shape(&built_from));
    assert_eq!(build_sizes(&updated_from, update.flags), sizes);

    let mut encoder = device
        .create_command_encoder(&CommandEncoderDescriptor { label: None, queue: &open.queue })
        .unwrap();
    encoder.begin_encoding(None).unwrap();
    encoder.build_acceleration_structures(1, vec![build.clone()]);
    encoder.build_acceleration_structures(1, vec![update.clone()]);
    let commands = encoder.end_encoding().unwrap();
    assert_eq!(commands.commands(), &vec![
        Command::BuildAccelerationStructures { descriptors: vec![build] },
        Command::BuildAccelerationStructures { descriptors: vec![update] },
    ]);
    // What the device declared of the structure is as it was.
    assert_eq!(device.acceleration_structure_state(&structure), before);
    assert_eq!(
        device.acceleration_structure_state(&structure).map(|state| state.size),
        Some(sizes.acceleration_structure_size)
    );
    encoder.reset_all(vec![commands]);
}
