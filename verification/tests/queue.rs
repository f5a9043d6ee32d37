use gpu_hal::instance::Instance;
use gpu_hal::instance::InstanceDescriptor;
use gpu_hal::adapter::OpenDevice;
use gpu_hal::device::CommandEncoderDescriptor;
use gpu_hal::device::Device;
use gpu_hal::error::DeviceError;
use gpu_hal::flags::InstanceFlags;
use gpu_hal::limits::Features;
use gpu_hal::limits::Limits;
use gpu_hal::queue::FenceSignal;
use gpu_hal::queue::Queue;
use gpu_hal::queue::Submission;
use gpu_hal::queue::SubmittedBuffer;
use gpu_hal::types::Backend;

fn open() -> (Device, Queue) {
    let desc = InstanceDescriptor {
        name: "tests",
        flags: InstanceFlags::empty(),
        backend: Backend::Empty,
    };
    let instance = Instance::init(&desc).expect("the empty backend is always there");
    let mut adapters = instance.enumerate_adapters();
    let mut exposed = adapters.remove(0);
    let OpenDevice { device, queue } = exposed
        .adapter
        .open(Features::empty(), &Limits::default())
        .expect("default limits are within those of the adapter");
    (device, queue)
}

#[test]
fn a_new_fence_has_reached_nothing() {
    let (mut device, _queue) = open();
    let fence = device.create_fence().unwrap();
    assert_eq!(fence.value(), 0);
    assert_eq!(fence.latest(), 0);
    assert!(!fence.is_pending());
    assert_eq!(device.get_fence_value(&fence), Ok(0));
}

#[test]
fn waiting_for_a_value_that_is_reached_returns_true_at_once() {
    let (mut device, mut queue) = open();
    let mut fence = device.create_fence().unwrap();
    for timeout_ms in [0, 1, 1000, u32::MAX] {
        assert_eq!(device.wait(&fence, 0, timeout_ms), Ok(true));
    }
    queue.submit(&[], &[], Some((&mut fence, 5))).unwrap();
    assert!(queue.complete(Some(&mut fence)).is_some());
    assert_eq!(device.get_fence_value(&fence), Ok(5));
    for value in 0..=5 {
        for timeout_ms in [0, 1, 1000, u32::MAX] {
            assert_eq!(device.wait(&fence, value, timeout_ms), Ok(true));
        }
    }
    assert_eq!(device.wait(&fence, 6, 0), Ok(false));
    // Even a lost device reports a value that was reached.
    device.lose(&mut queue);
    assert_eq!(device.wait(&fence, 5, 0), Ok(true));
    assert_eq!(device.wait(&fence, 6, 0), Err(DeviceError::Lost));
}

#[test]
fn a_fence_reaches_its_values_in_the_order_of_submission() {
    let (mut device, mut queue) = open();
    let mut fence = device.create_fence().unwrap();
    let handle = fence.handle();
    assert!(queue.is_idle());
    assert_eq!(queue.submit(&[], &[], Some((&mut fence, 1))), Ok(()));
    assert_eq!(queue.submit(&[], &[], None), Ok(()));
    assert_eq!(queue.submit(&[], &[], Some((&mut fence, 4))), Ok(()));
    assert_eq!(queue.in_flight(), 3);
    assert!(fence.is_pending());
    assert_eq!(fence.value(), 0);
    assert_eq!(fence.latest(), 4);
    assert_eq!(device.wait(&fence, 1, 10), Ok(false));

    assert_eq!(queue.next_signal(), Some(FenceSignal { fence: handle, value: 1 }));
    let first = queue.complete(Some(&mut fence));
    assert_eq!(
        first,
        Some(Submission {
            command_buffers: Vec::new(),
            signal: Some(FenceSignal { fence: handle, value: 1 })
        })
    );
    assert_eq!(fence.value(), 1);
    assert_eq!(device.wait(&fence, 1, 10), Ok(true));
    assert_eq!(device.wait(&fence, 2, 10), Ok(false));

    assert_eq!(queue.next_signal(), None);
    let second = queue.complete(None);
    assert_eq!(second, Some(Submission { command_buffers: Vec::new(), signal: None }));
    assert_eq!(fence.value(), 1);

    assert!(queue.complete(Some(&mut fence)).is_some());
    assert_eq!(fence.value(), 4);
    assert_eq!(device.wait(&fence, 2, 10), Ok(true));
    assert_eq!(device.wait(&fence, 3, 10), Ok(true));
    assert!(!fence.is_pending());
    assert!(queue.is_idle());
    assert_eq!(queue.complete(Some(&mut fence)), None);
    assert_eq!(queue.complete(None), None);
    assert_eq!(fence.value(), 4);
    assert_eq!(fence.latest(), 4);
    device.destroy_fence(fence);
    device.exit(queue);
}

#[test]
fn nothing_is_asked_of_the_fence_on_a_lost_device() {
    let (mut device, mut queue) = open();
    let mut fence = device.create_fence().unwrap();
    device.lose(&mut queue);
    assert_eq!(queue.submit(&[], &[], Some((&mut fence, 1))), Err(DeviceError::Lost));
    assert!(!fence.is_pending());
    assert_eq!(fence.latest(), 0);
    assert!(queue.is_idle());
}

#[test]
fn command_buffers_are_in_flight_until_their_work_is_done() {
    let (mut device, mut queue) = open();
    let mut encoder = device
        .create_command_encoder(&CommandEncoderDescriptor { label: None, queue: &queue })
        .unwrap();
    encoder.begin_encoding(None).unwrap();
    let first = encoder.end_encoding().unwrap();
    encoder.begin_encoding(None).unwrap();
    let second = encoder.end_encoding().unwrap();
    encoder.begin_encoding(None).unwrap();
    let third = encoder.end_encoding().unwrap();
    assert!(!queue.is_in_flight(&first));
    assert_eq!(queue.submit(&[&first, &second], &[], None), Ok(()));
    assert_eq!(queue.submit(&[&third], &[], None), Ok(()));
    assert!(queue.is_in_flight(&first));
    assert!(queue.is_in_flight(&second));
    assert!(queue.is_in_flight(&third));
    let done = queue.complete(None).unwrap();
    assert_eq!(done.command_buffers, vec![
        SubmittedBuffer { encoder: encoder.handle(), slot: 0 },
        SubmittedBuffer { encoder: encoder.handle(), slot: 1 },
    ]);
    assert!(!queue.is_in_flight(&first));
    assert!(!queue.is_in_flight(&second));
    assert!(queue.is_in_flight(&third));
    assert!(!queue.is_idle());
    queue.complete(None);
    assert!(!queue.is_in_flight(&third));
    assert!(queue.is_idle());
    encoder.reset_all(vec![first, second, third]);
    device.destroy_command_encoder(encoder);
    device.exit(queue);
}

#[test]
fn a_queue_takes_the_command_buffers_of_its_own_device() {
    let desc = InstanceDescriptor {
        name: "tests",
        flags: InstanceFlags::empty(),
        backend: Backend::Empty,
    };
    let instance = Instance::init(&desc).unwrap();
    let mut adapters = instance.enumerate_adapters();
    let adapter = &mut adapters[0].adapter;
    let mut first = adapter.open(Features::empty(), &Limits::default()).unwrap();
    let mut second = adapter.open(Features::empty(), &Limits::default()).unwrap();
    let mut encoder = first
        .device
        .create_command_encoder(&CommandEncoderDescriptor { label: None, queue: &first.queue })
        .unwrap();
    encoder.begin_encoding(None).unwrap();
    let buffer = encoder.end_encoding().unwrap();
    assert!(first.queue.can_submit(&[&buffer], &[]));
    assert!(!second.queue.can_submit(&[&buffer], &[]));
    assert!(second.queue.can_submit(&[], &[]));
    assert_eq!(first.queue.submit(&[&buffer], &[], None), Ok(()));
    assert_eq!(second.queue.submit(&[], &[], None), Ok(()));
    assert!(first.queue.is_in_flight(&buffer));
    assert!(!second.queue.is_in_flight(&buffer));
    assert!(first.queue.complete(None).is_some());
    encoder.reset_all(vec![buffer]);
    first.device.destroy_command_encoder(encoder);
    assert!(first.device.is_vacant());
    assert!(second.device.is_vacant());
}
