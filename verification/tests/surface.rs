use gpu_hal::instance::Instance;
use gpu_hal::instance::InstanceDescriptor;
use gpu_hal::command::Command;
use gpu_hal::descriptor::BufferDescriptor;
use gpu_hal::device::CommandEncoderDescriptor;
use gpu_hal::error::DeviceError;
use gpu_hal::error::SurfaceError;
use gpu_hal::flags::InstanceFlags;
use gpu_hal::flags::MemoryFlags;
use gpu_hal::limits::Features;
use gpu_hal::limits::Limits;
use gpu_hal::surface::SurfaceConfiguration;
use gpu_hal::surface::MAX_FRAME_LATENCY;
use gpu_hal::surface::MIN_FRAME_LATENCY;
use gpu_hal::types::Backend;
use gpu_hal::types::CompositeAlphaMode;
use gpu_hal::types::Extent3d;
use gpu_hal::types::PresentMode;
use gpu_hal::types::TextureFormat;
use gpu_hal::usage::BufferUses;
use gpu_hal::usage::TextureUses;
use std::time::Duration;

fn instance() -> Instance {
    let desc = InstanceDescriptor {
        name: "tests",
        flags: InstanceFlags::empty(),
        backend: Backend::Empty,
    };
    Instance::init(&desc).expect("the empty backend is always there")
}

fn config(maximum_frame_latency: u32) -> SurfaceConfiguration {
    SurfaceConfiguration {
        maximum_frame_latency,
        present_mode: PresentMode::Fifo,
        composite_alpha_mode: CompositeAlphaMode::Opaque,
        format: TextureFormat::Bgra8Unorm,
        extent: Extent3d { width: 640, height: 480, depth_or_array_layers: 1 },
        usage: TextureUses::from_bits_retain(TextureUses::COLOR_TARGET),
        view_formats: Vec::new(),
    }
}

#[test]
fn a_surface_goes_from_unconfigured_to_configured_and_back() {
    let mut instance = instance();
    let mut adapters = instance.enumerate_adapters();
    let open = adapters[0].adapter.open(Features::empty(), &Limits::default()).unwrap();
    let mut surface = instance.create_surface().unwrap();
    assert!(instance.is_surface_live(&surface));
    assert!(!surface.is_configured());
    assert_eq!(surface.images(), 0);
    assert!(surface.can_configure(&open.device));
    assert!(config(2).has_valid_latency());
    assert_eq!(surface.configure(&open.device, &config(2)), Ok(()));
    assert!(surface.is_configured());
    assert_eq!(surface.device(), Some(open.device.id()));
    assert_eq!(surface.images(), 3);
    assert_eq!(surface.acquired_textures(), 0);
    surface.unconfigure(&open.device);
    assert!(!surface.is_configured());
    assert_eq!(surface.device(), None);
    assert_eq!(surface.images(), 0);
    instance.destroy_surface(surface);
}

#[test]
fn acquiring_without_a_free_image_times_out() {
    let mut instance = instance();
    let mut adapters = instance.enumerate_adapters();
    let mut open = adapters[0].adapter.open(Features::empty(), &Limits::default()).unwrap();
    let mut surface = instance.create_surface().unwrap();
    surface.configure(&open.device, &config(1)).unwrap();
    let first = surface.acquire_texture(None).unwrap().expect("the ring has two free images");
    let second =
        surface.acquire_texture(Some(Duration::from_millis(0))).unwrap().expect("one is left");
    assert_eq!(first.texture.texture().raw.index, 0);
    assert_eq!(second.texture.texture().raw.index, 1);
    assert_eq!(first.texture.texture().surface, Some(surface.id()));
    assert_eq!(first.texture.texture().raw.device, open.device.id());
    assert!(!first.suboptimal);
    assert_eq!(surface.first_free_image(), None);
    // No frame is pending: the wait for one times out and hands out nothing.
    let third = surface.acquire_texture(Some(Duration::from_millis(0))).unwrap();
    assert!(third.is_none());
    assert!(surface.acquire_texture(Some(Duration::from_secs(1))).unwrap().is_none());
    assert_eq!(surface.acquired_textures(), 2);
    assert!(surface.holds(&first.texture));
    assert_eq!(open.queue.present(&mut surface, first.texture), Ok(()));
    assert_eq!(surface.first_free_image(), Some(0));
    let again = surface.acquire_texture(Some(Duration::from_millis(0))).unwrap().unwrap();
    assert_eq!(again.texture.texture().raw.index, 0);
    surface.discard_texture(again.texture);
    surface.discard_texture(second.texture);
    assert_eq!(surface.acquired_textures(), 0);
    surface.unconfigure(&open.device);
}

#[test]
fn a_surface_is_bound_to_one_device_at_a_time() {
    let mut instance = instance();
    let mut adapters = instance.enumerate_adapters();
    let adapter = &mut adapters[0].adapter;
    let first = adapter.open(Features::empty(), &Limits::default()).unwrap();
    let second = adapter.open(Features::empty(), &Limits::default()).unwrap();
    let mut surface = instance.create_surface().unwrap();
    surface.configure(&first.device, &config(1)).unwrap();
    assert!(surface.can_configure(&first.device));
    assert!(!surface.can_configure(&second.device));
    let acquired = surface.acquire_texture(None).unwrap().unwrap();
    assert!(!surface.can_configure(&first.device));
    surface.discard_texture(acquired.texture);
    assert_eq!(surface.configure(&first.device, &config(3)), Ok(()));
    assert_eq!(surface.images(), 4);
    surface.unconfigure(&first.device);
    assert!(surface.can_configure(&second.device));
    assert_eq!(surface.configure(&second.device, &config(1)), Ok(()));
    assert_eq!(surface.device(), Some(second.device.id()));
}

#[test]
fn an_outdated_surface_is_recovered_by_configuring_it_again() {
    let mut instance = instance();
    let mut adapters = instance.enumerate_adapters();
    let mut open = adapters[0].adapter.open(Features::empty(), &Limits::default()).unwrap();
    let mut surface = instance.create_surface().unwrap();
    surface.configure(&open.device, &config(1)).unwrap();
    surface.set_suboptimal(true);
    let acquired = surface.acquire_texture(None).unwrap().unwrap();
    assert!(acquired.suboptimal);
    surface.set_outdated();
    assert!(surface.is_outdated());
    assert_eq!(
        surface.acquire_texture(Some(Duration::from_millis(0))).map(|_| ()),
        Err(SurfaceError::Outdated)
    );
    assert!(SurfaceError::Outdated.is_recoverable());
    // Presenting fails too, and still takes the texture back.
    assert_eq!(open.queue.present(&mut surface, acquired.texture), Err(SurfaceError::Outdated));
    assert_eq!(surface.acquired_textures(), 0);
    assert_eq!(surface.configure(&open.device, &config(1)), Ok(()));
    assert!(!surface.is_outdated());
    let acquired = surface.acquire_texture(None).unwrap().unwrap();
    assert!(!acquired.suboptimal);
    surface.discard_texture(acquired.texture);
}

#[test]
fn a_lost_surface_stays_lost() {
    let mut instance = instance();
    let mut adapters = instance.enumerate_adapters();
    let open = adapters[0].adapter.open(Features::empty(), &Limits::default()).unwrap();
    let mut surface = instance.create_surface().unwrap();
    surface.configure(&open.device, &config(1)).unwrap();
    surface.set_lost();
    assert!(surface.is_lost());
    assert_eq!(surface.acquire_texture(None).map(|_| ()), Err(SurfaceError::Lost));
    assert!(!SurfaceError::Lost.is_recoverable());
    assert_eq!(surface.configure(&open.device, &config(1)), Err(SurfaceError::Lost));
    assert!(adapters[0].adapter.surface_capabilities(&surface).is_none());
    surface.unconfigure(&open.device);
    instance.destroy_surface(surface);
}

#[test]
fn a_lost_device_fails_configuring_and_presenting() {
    let mut instance = instance();
    let mut adapters = instance.enumerate_adapters();
    let mut open = adapters[0].adapter.open(Features::empty(), &Limits::default()).unwrap();
    let mut surface = instance.create_surface().unwrap();
    surface.configure(&open.device, &config(1)).unwrap();
    let acquired = surface.acquire_texture(None).unwrap().unwrap();
    open.device.lose(&mut open.queue);
    assert_eq!(
        open.queue.present(&mut surface, acquired.texture),
        Err(SurfaceError::Device(DeviceError::Lost))
    );
    assert_eq!(surface.acquired_textures(), 0);
    assert_eq!(
        surface.configure(&open.device, &config(1)),
        Err(SurfaceError::Device(DeviceError::Lost))
    );
    assert!(!SurfaceError::Device(DeviceError::Lost).is_recoverable());
    assert!(SurfaceError::Device(DeviceError::OutOfMemory).is_recoverable());
    assert!(!SurfaceError::Other("anything").is_recoverable());
}

#[test]
fn surface_textures_that_are_written_to_are_listed_with_the_submission() {
    let mut instance = instance();
    let mut adapters = instance.enumerate_adapters();
    let mut open = adapters[0].adapter.open(Features::empty(), &Limits::default()).unwrap();
    let mut surface = instance.create_surface().unwrap();
    surface.configure(&open.device, &config(1)).unwrap();
    let shown = surface.acquire_texture(None).unwrap().unwrap().texture;
    let spare = surface.acquire_texture(None).unwrap().unwrap().texture;
    let source = open
        .device
        .create_buffer(&BufferDescriptor {
            label: None,
            size: 64,
            usage: BufferUses::from_bits_retain(BufferUses::COPY_SRC),
            memory_flags: MemoryFlags::empty(),
        })
        .unwrap();
    let mut encoder = open
        .device
        .create_command_encoder(&CommandEncoderDescriptor { label: None, queue: &open.queue })
        .unwrap();
    encoder.begin_encoding(Some("frame")).unwrap();
    encoder.copy_buffer_to_texture(&source, shown.texture(), Vec::new());
    let buffer = encoder.end_encoding().unwrap();
    assert_eq!(buffer.commands(), &vec![Command::CopyBufferToTexture {
        src: source,
        dst: *shown.texture(),
        regions: Vec::new()
    }]);
    assert!(buffer.writes_surface_texture(shown.texture()));
    assert!(!open.queue.can_submit(&[&buffer], &[]));
    assert!(!open.queue.can_submit(&[&buffer], &[&spare]));
    assert!(open.queue.can_submit(&[&buffer], &[&shown]));
    assert!(open.queue.can_submit(&[&buffer], &[&spare, &shown]));
    assert_eq!(open.queue.submit(&[&buffer], &[&shown], None), Ok(()));
    assert_eq!(open.queue.present(&mut surface, shown), Ok(()));
    assert!(open.queue.complete(None).is_some());
    surface.discard_texture(spare);
    encoder.reset_all(vec![buffer]);
    surface.unconfigure(&open.device);
}

#[test]
fn frame_latency_has_a_range() {
    assert_eq!(MIN_FRAME_LATENCY, 1);
    assert_eq!(MAX_FRAME_LATENCY, 3);
    assert!(!config(0).has_valid_latency());
    assert!(config(1).has_valid_latency());
    assert!(config(3).has_valid_latency());
    assert!(!config(4).has_valid_latency());
}
