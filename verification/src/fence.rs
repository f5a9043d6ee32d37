//! Fences: counters of completed work.
//!
//! A queue is asked to signal a fence with a value when the work of a
//! submission is done. The values asked for only grow, so the value that a
//! fence has reached only grows too, and every value below it has been
//! reached as well.
//!
//! Nothing in this crate runs by itself. The work of a submission is done
//! when `Queue::complete` says so: whoever drives the crate calls it once for
//! each submission that has completed, and the fence of that submission
//! reaches its value then.

use vstd::prelude::*;

use crate::error::DeviceError;
use crate::resource::RawHandle;
use crate::types::FenceValue;

verus! {

/// The state of a fence.
pub struct FenceView {
    /// The highest value that the fence has reached.
    pub completed: FenceValue,
    /// The highest value that the fence has been asked to reach.
    pub latest: FenceValue,
}

impl FenceView {
    /// A fence has not reached more than it was asked for.
    pub open spec fn wf(self) -> bool {
        self.completed <= self.latest
    }

    /// Whether the fence has been asked for a value that it has not reached.
    pub open spec fn pending(self) -> bool {
        self.completed < self.latest
    }

    /// Whether the fence can be asked to reach the value: the value lies
    /// above every value asked for so far.
    pub open spec fn can_signal(self, value: FenceValue) -> bool {
        value > self.latest
    }

    /// The state after the fence has been asked to reach the value.
    pub open spec fn signaled(self, value: FenceValue) -> FenceView {
        FenceView { latest: value, ..self }
    }

    /// The state after the work that the value was asked with is done. The
    /// fence never goes back: a value below the one reached changes nothing.
    pub open spec fn reached(self, value: FenceValue) -> FenceView {
        FenceView {
            completed: if value > self.completed {
                value
            } else {
                self.completed
            },
            latest: if value > self.latest {
                value
            } else {
                self.latest
            },
        }
    }
}

/// What reading the value of a fence returns: the value reached, unless the
/// device is lost.
pub open spec fn fence_value_outcome(lost: bool, fence: FenceView) -> Result<
    FenceValue,
    DeviceError,
> {
    if lost {
        Err(DeviceError::Lost)
    } else {
        Ok(fence.completed)
    }
}

/// What waiting for a value returns. A value that the fence has reached is
/// reported at once, whatever the timeout and whatever has become of the
/// device. Otherwise a lost device is an error, and the wait times out:
/// nothing completes while a call is in progress.
pub open spec fn wait_outcome(lost: bool, fence: FenceView, value: FenceValue, timeout_ms: u32)
    -> Result<bool, DeviceError> {
    if fence.completed >= value {
        Ok(true)
    } else if lost {
        Err(DeviceError::Lost)
    } else {
        Ok(false)
    }
}

/// A counter of completed work.
#[derive(Debug)]
pub struct Fence {
    handle: RawHandle,
    completed: FenceValue,
    latest: FenceValue,
}

impl View for Fence {
    type V = FenceView;

    closed spec fn view(&self) -> FenceView {
        FenceView { completed: self.completed, latest: self.latest }
    }
}

impl Fence {
    #[verifier::type_invariant]
    spec fn well_formed(&self) -> bool {
        self@.wf()
    }

    /// The handle of the fence: the device that made it, and its slot in that
    /// device's table of fences.
    pub closed spec fn spec_handle(&self) -> RawHandle {
        self.handle
    }

    /// A fence that has reached nothing and has been asked for nothing.
    pub(crate) fn new(handle: RawHandle) -> (r: Fence)
        ensures
            r@ == (FenceView { completed: 0, latest: 0 }),
            r.spec_handle() == handle,
    {
        Fence { handle, completed: 0, latest: 0 }
    }

    /// The handle of the fence.
    #[verifier::when_used_as_spec(spec_handle)]
    pub fn handle(&self) -> (r: RawHandle)
        ensures
            r == self.spec_handle(),
    {
        self.handle
    }

    /// The highest value that the fence has reached.
    pub fn value(&self) -> (r: FenceValue)
        ensures
            r == self@.completed,
            self@.wf(),
    {
        proof {
            use_type_invariant(self);
        }
        self.completed
    }

    /// The highest value that the fence has been asked to reach.
    pub fn latest(&self) -> (r: FenceValue)
        ensures
            r == self@.latest,
            self@.wf(),
    {
        proof {
            use_type_invariant(self);
        }
        self.latest
    }

    /// Whether the fence has been asked for a value that it has not reached.
    pub fn is_pending(&self) -> (r: bool)
        ensures
            r == self@.pending(),
    {
        self.completed < self.latest
    }

    /// Asks the fence to reach a value once the work submitted so far is
    /// done.
    pub(crate) fn signal(&mut self, value: FenceValue)
        requires
            old(self)@.can_signal(value),
        ensures
            final(self)@ == old(self)@.signaled(value),
            final(self).spec_handle() == old(self).spec_handle(),
    {
        proof {
            use_type_invariant(&*self);
        }
        self.latest = value;
    }

    /// The work that the value was asked with is done.
    pub(crate) fn reach(&mut self, value: FenceValue)
        ensures
            final(self)@ == old(self)@.reached(value),
            final(self).spec_handle() == old(self).spec_handle(),
    {
        proof {
            use_type_invariant(&*self);
        }
        if value > self.latest {
            self.latest = value;
        }
        if value > self.completed {
            self.completed = value;
        }
    }
}

/// A wait for a value that the fence has reached returns at once and says
/// so: where reading the fence gives a value at or above the one waited for,
/// the wait returns `Ok(true)`, whatever the timeout.
pub proof fn lemma_wait_short_circuits(
    lost: bool,
    fence: FenceView,
    value: FenceValue,
    timeout_ms: u32,
)
    requires
        fence_value_outcome(lost, fence) matches Ok(reached) && reached >= value,
    ensures
        wait_outcome(lost, fence, value, timeout_ms) == Ok::<bool, DeviceError>(true),
{
}

/// The value of a fence never goes down, and a value that has been reached
/// stays reached: neither a signal nor completed work takes it back.
pub proof fn lemma_fence_monotonic(fence: FenceView, value: FenceValue, waited: FenceValue)
    requires
        fence.wf(),
    ensures
        fence.reached(value).wf(),
        fence.reached(value).completed >= fence.completed,
        fence.reached(value).completed >= value,
        fence.can_signal(value) ==> fence.signaled(value).wf() && fence.signaled(value).completed
            == fence.completed && fence.signaled(value).pending(),
        fence.completed >= waited ==> fence.reached(value).completed >= waited && fence.signaled(
            value,
        ).completed >= waited,
        fence.can_signal(value) ==> !fence.signaled(value).reached(value).pending(),
{
}

} // verus!
