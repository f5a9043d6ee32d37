use gpu_hal::aspects::FormatAspects;
use gpu_hal::command::BufferBinding;
use gpu_hal::command::CopyExtent;
use gpu_hal::descriptor::BindGroupDescriptor;
use gpu_hal::descriptor::BindGroupEntry;
use gpu_hal::descriptor::BindGroupLayoutDescriptor;
use gpu_hal::descriptor::BindGroupLayoutEntry;
use gpu_hal::descriptor::BindingType;
use gpu_hal::descriptor::SamplerDescriptor;
use gpu_hal::descriptor::TextureDescriptor;
use gpu_hal::flags::BindGroupLayoutFlags;
use gpu_hal::flags::MemoryFlags;
use gpu_hal::flags::ShaderStages;
use gpu_hal::flags::TextureFormatCapabilities;
use gpu_hal::limits::Limits;
use gpu_hal::resource::BindGroupLayout;
use gpu_hal::resource::Buffer;
use gpu_hal::resource::DeviceId;
use gpu_hal::resource::RawHandle;
use gpu_hal::types::AddressMode;
use gpu_hal::types::AstcBlock;
use gpu_hal::types::AstcChannel;
use gpu_hal::types::Extent3d;
use gpu_hal::types::FilterMode;
use gpu_hal::types::TextureAspect;
use gpu_hal::types::TextureDimension;
use gpu_hal::types::TextureFormat;
use gpu_hal::types::MAX_BIND_GROUPS;
use gpu_hal::types::MAX_VERTEX_BUFFERS;
use gpu_hal::usage::TextureUses;

fn texture(
    dimension: TextureDimension,
    width: u32,
    height: u32,
    layers: u32,
    sample_count: u32,
) -> TextureDescriptor<'static> {
    TextureDescriptor {
        label: Some("texture"),
        size: Extent3d { width, height, depth_or_array_layers: layers },
        mip_level_count: 1,
        sample_count,
        dimension,
        format: TextureFormat::Rgba8Unorm,
        usage: TextureUses::from_bits_retain(TextureUses::RESOURCE),
        memory_flags: MemoryFlags::empty(),
        view_formats: Vec::new(),
    }
}

#[test]
fn twelve_square_layers_with_one_sample_are_cube_compatible() {
    let desc = texture(TextureDimension::D2, 64, 64, 12, 1);
    assert!(desc.is_cube_compatible());
    let multisampled = texture(TextureDimension::D2, 64, 64, 12, 4);
    assert!(!multisampled.is_cube_compatible());
}

#[test]
fn cube_compatibility_needs_every_condition() {
    assert!(texture(TextureDimension::D2, 8, 8, 6, 1).is_cube_compatible());
    assert!(texture(TextureDimension::D2, 8, 8, 0, 1).is_cube_compatible());
    assert!(!texture(TextureDimension::D2, 8, 8, 7, 1).is_cube_compatible());
    assert!(!texture(TextureDimension::D2, 8, 4, 6, 1).is_cube_compatible());
    assert!(!texture(TextureDimension::D3, 8, 8, 6, 1).is_cube_compatible());
    assert!(!texture(TextureDimension::D1, 8, 8, 6, 1).is_cube_compatible());
    assert!(!texture(TextureDimension::D2, 8, 8, 6, 2).is_cube_compatible());
}

#[test]
fn array_layers_count_only_for_two_dimensions() {
    assert_eq!(texture(TextureDimension::D2, 8, 8, 12, 1).array_layer_count(), 12);
    assert_eq!(texture(TextureDimension::D1, 8, 1, 12, 1).array_layer_count(), 1);
    assert_eq!(texture(TextureDimension::D3, 8, 8, 12, 1).array_layer_count(), 1);
}

#[test]
fn copy_extent_has_depth_only_in_three_dimensions() {
    assert_eq!(
        texture(TextureDimension::D3, 8, 4, 12, 1).copy_extent(),
        CopyExtent { width: 8, height: 4, depth: 12 }
    );
    assert_eq!(
        texture(TextureDimension::D2, 8, 4, 12, 1).copy_extent(),
        CopyExtent { width: 8, height: 4, depth: 1 }
    );
    assert_eq!(
        CopyExtent::map_extent_to_copy_size(
            &Extent3d { width: 3, height: 1, depth_or_array_layers: 5 },
            TextureDimension::D1
        ),
        CopyExtent { width: 3, height: 1, depth: 1 }
    );
}

#[test]
fn aspects_follow_the_format() {
    assert_eq!(FormatAspects::from(TextureFormat::Rgba8Unorm).bits(), FormatAspects::COLOR);
    assert_eq!(FormatAspects::from(TextureFormat::Stencil8).bits(), FormatAspects::STENCIL);
    assert_eq!(FormatAspects::from(TextureFormat::Depth16Unorm).bits(), FormatAspects::DEPTH);
    assert_eq!(FormatAspects::from(TextureFormat::Depth32Float).bits(), FormatAspects::DEPTH);
    assert_eq!(FormatAspects::from(TextureFormat::Depth24Plus).bits(), FormatAspects::DEPTH);
    assert_eq!(
        FormatAspects::from(TextureFormat::Depth24PlusStencil8).bits(),
        FormatAspects::DEPTH_STENCIL
    );
    assert_eq!(
        FormatAspects::from(TextureFormat::Depth32FloatStencil8).bits(),
        FormatAspects::DEPTH | FormatAspects::STENCIL
    );
    assert_eq!(
        FormatAspects::from(TextureFormat::NV12).bits(),
        FormatAspects::PLANE_0 | FormatAspects::PLANE_1
    );
    assert_eq!(
        FormatAspects::from(TextureFormat::Astc {
            block: AstcBlock::B4x4,
            channel: AstcChannel::Unorm
        })
        .bits(),
        FormatAspects::COLOR
    );
}

#[test]
fn a_choice_of_aspect_masks_the_aspects_of_the_format() {
    let both = FormatAspects::new(TextureFormat::Depth24PlusStencil8, TextureAspect::All);
    assert_eq!(both.bits(), FormatAspects::DEPTH_STENCIL);
    assert!(!both.is_one());
    let depth = FormatAspects::new(TextureFormat::Depth24PlusStencil8, TextureAspect::DepthOnly);
    assert_eq!(depth.bits(), FormatAspects::DEPTH);
    assert!(depth.is_one());
    assert_eq!(depth.map(), TextureAspect::DepthOnly);
    let stencil =
        FormatAspects::new(TextureFormat::Depth24PlusStencil8, TextureAspect::StencilOnly);
    assert_eq!(stencil.map(), TextureAspect::StencilOnly);
    let none = FormatAspects::new(TextureFormat::Rgba8Unorm, TextureAspect::DepthOnly);
    assert!(none.is_empty());
    assert!(!none.is_one());
    let color = FormatAspects::new(TextureFormat::Rgba8Unorm, TextureAspect::All);
    assert!(color.is_one());
    assert_eq!(color.map(), TextureAspect::All);
    let plane = FormatAspects::new(TextureFormat::NV12, TextureAspect::Plane1);
    assert_eq!(plane.map(), TextureAspect::Plane1);
    assert_eq!(
        FormatAspects::new(TextureFormat::NV12, TextureAspect::Plane0).map(),
        TextureAspect::Plane0
    );
    assert_eq!(
        FormatAspects::from_bits_retain(FormatAspects::PLANE_2).map(),
        TextureAspect::Plane2
    );
}

#[test]
fn is_one_counts_every_bit() {
    for bits in 0..=u8::MAX {
        assert_eq!(FormatAspects::from_bits_retain(bits).is_one(), bits.count_ones() == 1);
    }
}

#[test]
fn test_default_limits() {
    let limits = Limits::default();
    assert!(limits.max_bind_groups <= MAX_BIND_GROUPS as u32);
    assert!(limits.max_vertex_buffers <= MAX_VERTEX_BUFFERS as u32);
}

#[test]
fn limits_are_within_looser_limits_only() {
    let baseline = Limits::default();
    assert!(baseline.check_limits(&baseline));
    let mut more = baseline;
    more.max_bind_groups = 8;
    assert!(!more.check_limits(&baseline));
    assert!(baseline.check_limits(&more));
    let mut finer = baseline;
    finer.min_uniform_buffer_offset_alignment = 64;
    assert!(!finer.check_limits(&baseline));
    assert!(baseline.check_limits(&finer));
}

#[test]
fn small_flag_sets_keep_their_bits() {
    assert_eq!(TextureFormatCapabilities::SAMPLED, 1);
    assert_eq!(TextureFormatCapabilities::COPY_DST, 1 << 15);
    assert_eq!(TextureFormatCapabilities::all().bits(), 0xffff);
    assert_eq!(ShaderStages::VERTEX_FRAGMENT, ShaderStages::VERTEX | ShaderStages::FRAGMENT);
    assert_eq!(MemoryFlags::from_bits_truncate(0xff).bits(), 3);
    assert!(BindGroupLayoutFlags::from_bits(2).is_none());
}

fn entry(binding: u32, ty: BindingType) -> BindGroupLayoutEntry {
    BindGroupLayoutEntry {
        binding,
        visibility: ShaderStages::from_bits_retain(ShaderStages::COMPUTE),
        ty,
        count: None,
    }
}

#[test]
fn layout_entries_have_to_ascend() {
    let sorted = [entry(0, BindingType::Buffer), entry(2, BindingType::Sampler)];
    let desc = BindGroupLayoutDescriptor {
        label: None,
        flags: BindGroupLayoutFlags::empty(),
        entries: &sorted,
    };
    assert!(desc.is_sorted());
    let repeated = [entry(1, BindingType::Buffer), entry(1, BindingType::Sampler)];
    let desc = BindGroupLayoutDescriptor {
        label: None,
        flags: BindGroupLayoutFlags::empty(),
        entries: &repeated,
    };
    assert!(!desc.is_sorted());
    let falling = [
        entry(0, BindingType::Buffer),
        entry(3, BindingType::Sampler),
        entry(2, BindingType::Texture),
    ];
    let desc = BindGroupLayoutDescriptor {
        label: None,
        flags: BindGroupLayoutFlags::empty(),
        entries: &falling,
    };
    assert!(!desc.is_sorted());
    let desc =
        BindGroupLayoutDescriptor {
            label: None,
            flags: BindGroupLayoutFlags::empty(),
            entries: &[],
        };
    assert!(desc.is_sorted());
}

#[test]
fn bind_group_entries_have_to_fit_the_layout() {
    let device = DeviceId { adapter: 0, serial: 0 };
    let buffer = Buffer { raw: RawHandle { device, index: 0 } };
    let buffers = [BufferBinding { buffer, offset: 0, size: None }];
    let layout = [entry(0, BindingType::Buffer)];
    let fitting = [BindGroupEntry { binding: 0, resource_index: 0, count: 1 }];
    let desc = BindGroupDescriptor {
        label: None,
        layout: BindGroupLayout { raw: RawHandle { device, index: 0 } },
        buffers: &buffers,
        samplers: &[],
        textures: &[],
        entries: &fitting,
        acceleration_structures: &[],
    };
    assert!(desc.fits_layout(&layout));
    assert!(!desc.fits_layout(&[entry(1, BindingType::Buffer)]));
    assert!(!desc.fits_layout(&[entry(0, BindingType::Sampler)]));
    assert!(!desc.fits_layout(&[]));
    let beyond = [BindGroupEntry { binding: 0, resource_index: 1, count: 1 }];
    let desc = BindGroupDescriptor { entries: &beyond, ..desc };
    assert!(!desc.fits_layout(&layout));
    let huge = [BindGroupEntry { binding: 0, resource_index: u32::MAX, count: u32::MAX }];
    let desc = BindGroupDescriptor { entries: &huge, ..desc };
    assert!(!desc.fits_layout(&layout));
}

#[test]
fn anisotropy_lies_between_one_and_sixteen() {
    let mut desc = SamplerDescriptor {
        label: None,
        address_modes: [AddressMode::Repeat; 3],
        mag_filter: FilterMode::Linear,
        min_filter: FilterMode::Linear,
        mipmap_filter: FilterMode::Nearest,
        compare: None,
        anisotropy_clamp: 1,
        border_color: None,
    };
    assert!(desc.has_valid_anisotropy());
    desc.anisotropy_clamp = 16;
    assert!(desc.has_valid_anisotropy());
    desc.anisotropy_clamp = 0;
    assert!(!desc.has_valid_anisotropy());
    desc.anisotropy_clamp = 17;
    assert!(!desc.has_valid_anisotropy());
}
