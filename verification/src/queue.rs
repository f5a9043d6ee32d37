//! The queue: where command buffers are submitted and surface textures are
//! presented.
//!
//! A submission hands command buffers over for execution. Each of them was
//! recorded by an encoder of the device that the queue belongs to, and each
//! stays alive, with its encoder, until the work is done. The textures of
//! surfaces that the command buffers write to are listed with the
//! submission. A fence can be named with a value: the fence reaches the
//! value once the work of the submission is done.
//!
//! The queue keeps the submissions whose work is not done, oldest first.
//! `complete` takes the oldest away: work completes in the order in which it
//! was submitted.

use vstd::prelude::*;

use crate::encoder::CommandBuffer;
use crate::error::DeviceError;
use crate::error::SurfaceError;
use crate::fence::Fence;
use crate::resource::DeviceId;
use crate::resource::RawHandle;
use crate::resource::Texture;
use crate::surface::Surface;
use crate::surface::SurfaceTexture;
use crate::surface::SurfaceView;
use crate::types::FenceValue;

verus! {

/// Names a command buffer: the encoder that recorded it, and its slot in the
/// pool of that encoder.
#[derive(Clone, Copy, Debug, PartialEq, Eq, Hash, Structural)]
pub struct SubmittedBuffer {
    pub encoder: RawHandle,
    pub slot: usize,
}

/// What a submission asks of a fence.
#[derive(Clone, Copy, Debug, PartialEq, Eq, Hash, Structural)]
pub struct FenceSignal {
    pub fence: RawHandle,
    pub value: FenceValue,
}

/// The record of one submission.
#[derive(Debug, PartialEq, Eq)]
pub struct Submission {
    /// The command buffers, in the order in which they were handed over.
    pub command_buffers: Vec<SubmittedBuffer>,
    /// The fence to signal when the work is done, and the value.
    pub signal: Option<FenceSignal>,
}

/// The state of a queue.
pub struct QueueView {
    /// The device that the queue belongs to.
    pub device: DeviceId,
    /// Whether the device is lost.
    pub lost: bool,
    /// The submissions whose work is not done, oldest first.
    pub in_flight: Seq<Submission>,
}

/// The name of a command buffer.
pub open spec fn name_of(command_buffer: &CommandBuffer) -> SubmittedBuffer {
    SubmittedBuffer {
        encoder: command_buffer@.encoder,
        slot: command_buffer@.slot as usize,
    }
}

/// The names of command buffers, in their order.
pub open spec fn names_of(command_buffers: Seq<&CommandBuffer>) -> Seq<SubmittedBuffer> {
    Seq::new(command_buffers.len(), |i: int| name_of(command_buffers[i]))
}

/// What a submission asks of a fence, as it is kept in the record.
pub open spec fn signal_of(signal_fence: Option<(&mut Fence, FenceValue)>) -> Option<FenceSignal> {
    match signal_fence {
        Some((fence, value)) => Some(FenceSignal { fence: fence.spec_handle(), value }),
        None => None,
    }
}

/// Whether the texture is among those listed.
pub open spec fn lists_texture(surface_textures: Seq<&SurfaceTexture>, texture: Texture) -> bool {
    exists|j: int|
        0 <= j < surface_textures.len() && (#[trigger] surface_textures[j]).spec_texture()
            == texture
}

/// Whether every texture that the command buffer writes to is among those
/// listed.
pub open spec fn writes_are_listed(
    command_buffer: &CommandBuffer,
    surface_textures: Seq<&SurfaceTexture>,
) -> bool {
    forall|texture: Texture| #[trigger]
        command_buffer@.surface_writes.contains(texture) ==> lists_texture(
            surface_textures,
            texture,
        )
}

/// Whether the submission holds the command buffer.
pub open spec fn holds_buffer(submission: Submission, buffer: SubmittedBuffer) -> bool {
    submission.command_buffers@.contains(buffer)
}

impl QueueView {
    /// Whether the queue takes the submission: every command buffer comes
    /// from an encoder of the queue's device, and every texture of a surface
    /// that one of them writes to is listed.
    pub open spec fn accepts(
        self,
        command_buffers: Seq<&CommandBuffer>,
        surface_textures: Seq<&SurfaceTexture>,
    ) -> bool {
        forall|i: int|
            0 <= i < command_buffers.len() ==> (#[trigger] command_buffers[i])@.encoder.device
                == self.device && writes_are_listed(command_buffers[i], surface_textures)
    }

    /// What a submission returns: an error on a lost device, success
    /// otherwise.
    pub open spec fn submit_outcome(self) -> Result<(), DeviceError> {
        if self.lost {
            Err(DeviceError::Lost)
        } else {
            Ok(())
        }
    }

    /// What presenting returns: an error on a lost device, then on a lost
    /// surface, then on an outdated one; success otherwise.
    pub open spec fn present_outcome(self, surface: SurfaceView) -> Result<(), SurfaceError> {
        if self.lost {
            Err(SurfaceError::Device(DeviceError::Lost))
        } else {
            match surface.fault() {
                Some(error) => Err(error),
                None => Ok(()),
            }
        }
    }

    /// Whether the work of every submission is done.
    pub open spec fn idle(self) -> bool {
        self.in_flight.len() == 0
    }

    /// Whether a submission whose work is not done holds the command buffer.
    pub open spec fn in_flight_holds(self, buffer: SubmittedBuffer) -> bool {
        exists|i: int|
            0 <= i < self.in_flight.len() && #[trigger] holds_buffer(self.in_flight[i], buffer)
    }

    /// The fence that the oldest submission signals, if it signals one.
    pub open spec fn next_signal(self) -> Option<FenceSignal> {
        if self.in_flight.len() == 0 {
            None
        } else {
            self.in_flight[0].signal
        }
    }
}

/// The queue of a device.
#[derive(Debug)]
pub struct Queue {
    device: DeviceId,
    lost: bool,
    in_flight: Vec<Submission>,
}

impl View for Queue {
    type V = QueueView;

    closed spec fn view(&self) -> QueueView {
        QueueView { device: self.device, lost: self.lost, in_flight: self.in_flight@ }
    }
}

fn is_listed(surface_textures: &[&SurfaceTexture], texture: &Texture) -> (r: bool)
    ensures
        r == lists_texture(surface_textures@, *texture),
{
    let mut j: usize = 0;
    while j < surface_textures.len()
        invariant
            j <= surface_textures@.len(),
            forall|k: int|
                0 <= k < j ==> (#[trigger] surface_textures@[k]).spec_texture() != *texture,
        decreases surface_textures@.len() - j,
    {
        if *surface_textures[j].texture() == *texture {
            return true;
        }
        j += 1;
    }
    false
}

fn are_writes_listed(command_buffer: &CommandBuffer, surface_textures: &[&SurfaceTexture]) -> (r:
    bool)
    ensures
        r == writes_are_listed(command_buffer, surface_textures@),
{
    let writes = command_buffer.surface_writes();
    let mut k: usize = 0;
    while k < writes.len()
        invariant
            k <= writes@.len(),
            writes@.to_set() == command_buffer@.surface_writes,
            forall|n: int| 0 <= n < k ==> lists_texture(surface_textures@, #[trigger] writes@[n]),
        decreases writes@.len() - k,
    {
        if !is_listed(surface_textures, &writes[k]) {
            assert(writes@.contains(writes@[k as int]));
            assert(command_buffer@.surface_writes.contains(writes@[k as int]));
            return false;
        }
        k += 1;
    }
    assert forall|texture: Texture| #[trigger]
        command_buffer@.surface_writes.contains(texture) implies lists_texture(
        surface_textures@,
        texture,
    ) by {
        assert(writes@.contains(texture));
        let n = choose|n: int| 0 <= n < writes@.len() && writes@[n] == texture;
        assert(lists_texture(surface_textures@, writes@[n]));
    }
    true
}

fn names(command_buffers: &[&CommandBuffer]) -> (r: Vec<SubmittedBuffer>)
    ensures
        r@ == names_of(command_buffers@),
{
    let mut list: Vec<SubmittedBuffer> = Vec::new();
    let mut i: usize = 0;
    while i < command_buffers.len()
        invariant
            i <= command_buffers@.len(),
            list@.len() == i,
            forall|k: int| 0 <= k < i ==> list@[k] == name_of(command_buffers@[k]),
        decreases command_buffers@.len() - i,
    {
        let command_buffer = command_buffers[i];
        list.push(SubmittedBuffer { encoder: command_buffer.encoder(), slot: command_buffer.slot() });
        i += 1;
    }
    assert(list@ =~= names_of(command_buffers@));
    list
}

fn submission_holds(submission: &Submission, buffer: SubmittedBuffer) -> (r: bool)
    ensures
        r == holds_buffer(*submission, buffer),
{
    let mut k: usize = 0;
    while k < submission.command_buffers.len()
        invariant
            k <= submission.command_buffers@.len(),
            forall|n: int| 0 <= n < k ==> submission.command_buffers@[n] != buffer,
        decreases submission.command_buffers@.len() - k,
    {
        if submission.command_buffers[k] == buffer {
            return true;
        }
        k += 1;
    }
    false
}

impl Queue {
    /// The queue of a device that has just been opened.
    pub(crate) fn new(device: DeviceId) -> (r: Queue)
        ensures
            r@ == (QueueView { device, lost: false, in_flight: Seq::empty() }),
    {
        Queue { device, lost: false, in_flight: Vec::new() }
    }

    pub(crate) fn mark_lost(&mut self)
        ensures
            final(self)@ == (QueueView { lost: true, ..old(self)@ }),
    {
        self.lost = true;
    }

    /// The device that the queue belongs to.
    pub fn device(&self) -> (r: DeviceId)
        ensures
            r == self@.device,
    {
        self.device
    }

    /// Whether the device is lost.
    pub fn is_lost(&self) -> (r: bool)
        ensures
            r == self@.lost,
    {
        self.lost
    }

    /// The number of submissions whose work is not done.
    pub fn in_flight(&self) -> (r: usize)
        ensures
            r == self@.in_flight.len(),
    {
        self.in_flight.len()
    }

    /// Whether the work of every submission is done.
    pub fn is_idle(&self) -> (r: bool)
        ensures
            r == self@.idle(),
    {
        self.in_flight.len() == 0
    }

    /// Whether a submission whose work is not done holds the command buffer.
    /// Such a command buffer, and its encoder, have to stay alive.
    pub fn is_in_flight(&self, command_buffer: &CommandBuffer) -> (r: bool)
        ensures
            r == self@.in_flight_holds(name_of(command_buffer)),
    {
        let buffer = SubmittedBuffer {
            encoder: command_buffer.encoder(),
            slot: command_buffer.slot(),
        };
        let mut i: usize = 0;
        while i < self.in_flight.len()
            invariant
                i <= self.in_flight@.len(),
                self.in_flight@ == self@.in_flight,
                buffer == name_of(command_buffer),
                forall|k: int| 0 <= k < i ==> !#[trigger] holds_buffer(self.in_flight@[k], buffer),
            decreases self.in_flight@.len() - i,
        {
            if submission_holds(&self.in_flight[i], buffer) {
                assert(holds_buffer(self@.in_flight[i as int], buffer));
                return true;
            }
            i += 1;
        }
        false
    }

    /// The fence that the oldest submission signals, if it signals one.
    pub fn next_signal(&self) -> (r: Option<FenceSignal>)
        ensures
            r == self@.next_signal(),
    {
        if self.in_flight.len() == 0 {
            None
        } else {
            self.in_flight[0].signal
        }
    }

    /// Whether the queue takes the submission.
    pub fn can_submit(
        &self,
        command_buffers: &[&CommandBuffer],
        surface_textures: &[&SurfaceTexture],
    ) -> (r: bool)
        ensures
            r == self@.accepts(command_buffers@, surface_textures@),
    {
        let mut i: usize = 0;
        while i < command_buffers.len()
            invariant
                i <= command_buffers@.len(),
                forall|k: int|
                    0 <= k < i ==> (#[trigger] command_buffers@[k])@.encoder.device
                        == self@.device && writes_are_listed(
                        command_buffers@[k],
                        surface_textures@,
                    ),
            decreases command_buffers@.len() - i,
        {
            let command_buffer = command_buffers[i];
            if command_buffer.encoder().device != self.device || !are_writes_listed(
                command_buffer,
                surface_textures,
            ) {
                assert(!(command_buffers@[i as int]@.encoder.device == self@.device
                    && writes_are_listed(command_buffers@[i as int], surface_textures@)));
                return false;
            }
            i += 1;
        }
        true
    }

    /// Submits command buffers for execution, after everything that was
    /// submitted before. Where a fence is named, the fence is asked to reach
    /// the value once the work is done; the value lies above every value
    /// that the fence has been asked for before. On a lost device nothing is
    /// submitted and nothing is asked of the fence.
    pub fn submit(
        &mut self,
        command_buffers: &[&CommandBuffer],
        surface_textures: &[&SurfaceTexture],
        signal_fence: Option<(&mut Fence, FenceValue)>,
    ) -> (r: Result<(), DeviceError>)
        requires
            old(self)@.accepts(command_buffers@, surface_textures@),
            signal_fence matches Some((fence, value)) ==> fence@.can_signal(value)
                && fence.spec_handle().device == old(self)@.device,
        ensures
            r == old(self)@.submit_outcome(),
            r is Err ==> final(self)@ == old(self)@,
            r is Ok ==> final(self)@ == (QueueView {
                in_flight: old(self)@.in_flight.push(final(self)@.in_flight.last()),
                ..old(self)@
            }),
            r is Ok ==> final(self)@.in_flight.last().command_buffers@ == names_of(
                command_buffers@,
            ) && final(self)@.in_flight.last().signal == signal_of(signal_fence),
            signal_fence matches Some((fence, value)) ==> final(fence).spec_handle()
                == fence.spec_handle() && final(fence)@ == if r is Ok {
                fence@.signaled(value)
            } else {
                fence@
            },
    {
        if self.lost {
            return Err(DeviceError::Lost);
        }
        let signal = match signal_fence {
            Some((fence, value)) => {
                fence.signal(value);
                Some(FenceSignal { fence: fence.handle(), value })
            },
            None => None,
        };
        self.in_flight.push(Submission { command_buffers: names(command_buffers), signal });
        Ok(())
    }

    /// The work of the oldest submission is done. Where that submission
    /// named a fence, this is the fence, and it reaches the value that was
    /// asked for. Returns the record of the submission, or `None` where no
    /// work was left.
    pub fn complete(&mut self, fence: Option<&mut Fence>) -> (r: Option<Submission>)
        requires
            old(self)@.next_signal() matches Some(signal) ==> fence matches Some(given)
                && given.spec_handle() == signal.fence,
        ensures
            old(self)@.idle() ==> r is None && final(self)@ == old(self)@,
            !old(self)@.idle() ==> r == Some(old(self)@.in_flight.first()) && final(self)@ == (
            QueueView { in_flight: old(self)@.in_flight.drop_first(), ..old(self)@ }),
            fence matches Some(given) ==> final(given).spec_handle() == given.spec_handle()
                && final(given)@ == match old(self)@.next_signal() {
                Some(signal) => given@.reached(signal.value),
                None => given@,
            },
    {
        if self.in_flight.len() == 0 {
            return None;
        }
        let submission = self.in_flight.remove(0);
        match submission.signal {
            Some(signal) => {
                match fence {
                    Some(given) => {
                        given.reach(signal.value);
                    },
                    None => {},
                }
            },
            None => {},
        }
        Some(submission)
    }

    /// Presents a texture on the surface that handed it out. The texture is
    /// used up whatever comes back: its image returns to the ring also where
    /// presenting fails.
    pub fn present(&mut self, surface: &mut Surface, texture: SurfaceTexture) -> (r: Result<
        (),
        SurfaceError,
    >)
        requires
            old(surface)@.device == Some(old(self)@.device),
            old(surface)@.holds(texture.spec_texture()),
        ensures
            final(self)@ == old(self)@,
            r == old(self)@.present_outcome(old(surface)@),
            final(surface)@ == old(surface)@.with_released(texture.image()),
    {
        let lost = surface.is_lost();
        let outdated = surface.is_outdated();
        surface.discard_texture(texture);
        if self.lost {
            Err(SurfaceError::Device(DeviceError::Lost))
        } else if lost {
            Err(SurfaceError::Lost)
        } else if outdated {
            Err(SurfaceError::Outdated)
        } else {
            Ok(())
        }
    }
}

/// The values that the submissions whose work is not done ask of a fence,
/// oldest first.
pub open spec fn pending_values(in_flight: Seq<Submission>, fence: RawHandle) -> Seq<FenceValue>
    decreases in_flight.len(),
{
    if in_flight.len() == 0 {
        Seq::empty()
    } else {
        let earlier = pending_values(in_flight.drop_last(), fence);
        if asks(in_flight.last(), fence) {
            earlier.push(in_flight.last().signal.unwrap().value)
        } else {
            earlier
        }
    }
}

/// Whether the submission asks the fence for a value.
pub open spec fn asks(submission: Submission, fence: RawHandle) -> bool {
    match submission.signal {
        Some(signal) => signal.fence == fence,
        None => false,
    }
}

/// A queue and a fence are in step when the values that the queue still has
/// to bring the fence to grow from each to the next, start above the value
/// that the fence has reached, and end at the highest value that the fence
/// was asked for; and when, with nothing left to bring, the fence has reached
/// all that it was asked for.
pub open spec fn in_step(queue: QueueView, handle: RawHandle, fence: crate::fence::FenceView)
    -> bool {
    let values = pending_values(queue.in_flight, handle);
    &&& forall|i: int, j: int| 0 <= i < j < values.len() ==> values[i] < values[j]
    &&& values.len() == 0 ==> fence.completed == fence.latest
    &&& values.len() > 0 ==> fence.completed < values.first() && values.last() == fence.latest
}

proof fn lemma_pending_values_drop_first(in_flight: Seq<Submission>, fence: RawHandle)
    requires
        in_flight.len() > 0,
    ensures
        pending_values(in_flight.drop_first(), fence) == if asks(in_flight.first(), fence) {
            pending_values(in_flight, fence).drop_first()
        } else {
            pending_values(in_flight, fence)
        },
        asks(in_flight.first(), fence) ==> pending_values(in_flight, fence).len() > 0
            && pending_values(in_flight, fence).first() == in_flight.first().signal.unwrap().value,
    decreases in_flight.len(),
{
    if in_flight.len() == 1 {
        assert(in_flight.drop_last() =~= Seq::<Submission>::empty());
        assert(in_flight.drop_first() =~= Seq::<Submission>::empty());
        assert(pending_values(in_flight.drop_last(), fence) =~= Seq::<FenceValue>::empty());
        if asks(in_flight.first(), fence) {
            assert(pending_values(in_flight, fence).drop_first() =~= Seq::<FenceValue>::empty());
        }
    } else {
        let front = in_flight.drop_last();
        lemma_pending_values_drop_first(front, fence);
        assert(in_flight.drop_first().drop_last() =~= front.drop_first());
        assert(in_flight.drop_first().last() == in_flight.last());
        assert(front.first() == in_flight.first());
        let earlier = pending_values(front, fence);
        if asks(in_flight.last(), fence) {
            let value = in_flight.last().signal.unwrap().value;
            if asks(in_flight.first(), fence) {
                assert(earlier.drop_first().push(value) =~= earlier.push(value).drop_first());
            }
        }
    }
}

/// A submission keeps a queue and a fence in step: where it asks the fence
/// for a value above all that were asked before, that value is the last that
/// the queue has to bring the fence to; where it asks nothing of this fence,
/// nothing changes for the fence.
pub proof fn lemma_submit_keeps_step(
    queue: QueueView,
    handle: RawHandle,
    fence: crate::fence::FenceView,
    submission: Submission,
)
    requires
        in_step(queue, handle, fence),
        asks(submission, handle) ==> fence.can_signal(submission.signal.unwrap().value),
    ensures
        in_step(
            QueueView { in_flight: queue.in_flight.push(submission), ..queue },
            handle,
            if asks(submission, handle) {
                fence.signaled(submission.signal.unwrap().value)
            } else {
                fence
            },
        ),
{
    assert(queue.in_flight.push(submission).drop_last() =~= queue.in_flight);
}

/// Completed work keeps a queue and a fence in step, and moves the fence
/// forward: where the oldest submission asked the fence for a value, the
/// fence had not reached that value and reaches exactly it; any other
/// submission leaves the fence as it is.
pub proof fn lemma_complete_keeps_step(
    queue: QueueView,
    handle: RawHandle,
    fence: crate::fence::FenceView,
)
    requires
        in_step(queue, handle, fence),
        !queue.idle(),
    ensures
        asks(queue.in_flight.first(), handle) ==> {
            let value = queue.in_flight.first().signal.unwrap().value;
            &&& value > fence.completed
            &&& fence.reached(value).completed == value
            &&& fence.reached(value).latest == fence.latest
            &&& in_step(
                QueueView { in_flight: queue.in_flight.drop_first(), ..queue },
                handle,
                fence.reached(value),
            )
        },
        !asks(queue.in_flight.first(), handle) ==> in_step(
            QueueView { in_flight: queue.in_flight.drop_first(), ..queue },
            handle,
            fence,
        ),
{
    lemma_pending_values_drop_first(queue.in_flight, handle);
    let values = pending_values(queue.in_flight, handle);
    if asks(queue.in_flight.first(), handle) {
        let rest = values.drop_first();
        assert forall|i: int, j: int| 0 <= i < j < rest.len() implies rest[i] < rest[j] by {
            assert(rest[i] == values[i + 1]);
            assert(rest[j] == values[j + 1]);
        }
        if rest.len() > 0 {
            assert(rest.first() == values[1]);
            assert(rest.last() == values.last());
        }
    }
}

/// A new queue and a new fence are in step, and a fence that is in step with
/// its queue has work pending exactly while the queue has values left to
/// bring it to.
pub proof fn lemma_in_step(queue: QueueView, handle: RawHandle, fence: crate::fence::FenceView)
    ensures
        queue.idle() && fence.completed == fence.latest ==> in_step(queue, handle, fence),
        in_step(queue, handle, fence) ==> fence.wf() && (fence.pending() <==> pending_values(
            queue.in_flight,
            handle,
        ).len() > 0),
{
    let values = pending_values(queue.in_flight, handle);
    if in_step(queue, handle, fence) && values.len() > 1 {
        assert(values[0] < values[values.len() - 1]);
    }
}

/// A fence only ever moves forward through submissions: a submission that
/// names a fence leaves the value that the fence has reached as it is, and
/// the value that it asks for lies above all that were asked for before.
pub proof fn lemma_submissions_are_ordered(
    fence: crate::fence::FenceView,
    first: FenceValue,
    second: FenceValue,
)
    requires
        fence.wf(),
        fence.can_signal(first),
        fence.signaled(first).can_signal(second),
    ensures
        first < second,
        fence.signaled(first).signaled(second).completed == fence.completed,
        fence.signaled(first).signaled(second).latest == second,
        !fence.signaled(first).can_signal(first),
        fence.signaled(first).signaled(second).reached(first).completed == first,
        fence.signaled(first).signaled(second).reached(first).reached(second).completed == second,
        !fence.signaled(first).signaled(second).reached(first).reached(second).pending(),
{
}

/// Work completes in the order of submission: after a submission has been
/// put last and the oldest work is done, the queue holds what it held
/// before, without the oldest, and the new submission is still last.
pub proof fn lemma_first_in_first_out(queue: QueueView, submission: Submission)
    requires
        !queue.idle(),
    ensures
        (QueueView { in_flight: queue.in_flight.push(submission).drop_first(), ..queue })
            == (QueueView { in_flight: queue.in_flight.drop_first().push(submission), ..queue }),
        queue.in_flight.push(submission).first() == queue.in_flight.first(),
{
    assert(queue.in_flight.push(submission).drop_first() =~= queue.in_flight.drop_first().push(
        submission,
    ));
}

} // verus!
