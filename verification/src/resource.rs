//! Handles, and the table that a device keeps for each kind of resource.
//!
//! A handle names a slot of the table of the device that made it. Destroying
//! the resource empties the slot for good: no later resource gets the same
//! handle, so a handle that is used after its resource is gone can be told
//! from a live one.

use vstd::prelude::*;

use crate::types::QueryType;

verus! {

/// Names a device among those that were opened from one instance: the
/// position of its adapter, and how many devices that adapter had opened
/// before.
#[derive(Clone, Copy, Debug, PartialEq, Eq, Hash, Structural)]
pub struct DeviceId {
    pub adapter: usize,
    pub serial: u64,
}

/// What every handle holds: the device that made the resource, and the slot
/// of the resource in that device's table for its kind.
#[derive(Clone, Copy, Debug, PartialEq, Eq, Hash, Structural)]
pub struct RawHandle {
    pub device: DeviceId,
    pub index: usize,
}

/// A buffer.
#[derive(Clone, Copy, Debug, PartialEq, Eq, Hash, Structural)]
pub struct Buffer {
    pub raw: RawHandle,
}

/// A texture. One that a surface handed out for presentation names a slot of
/// that surface's ring instead, and `surface` tells which surface.
#[derive(Clone, Copy, Debug, PartialEq, Eq, Hash, Structural)]
pub struct Texture {
    pub raw: RawHandle,
    pub surface: Option<usize>,
}

/// A view of a texture.
#[derive(Clone, Copy, Debug, PartialEq, Eq, Hash, Structural)]
pub struct TextureView {
    pub raw: RawHandle,
    /// The texture that the view shows.
    pub texture: Texture,
}

/// A sampler.
#[derive(Clone, Copy, Debug, PartialEq, Eq, Hash, Structural)]
pub struct Sampler {
    pub raw: RawHandle,
}

/// The layout of a bind group.
#[derive(Clone, Copy, Debug, PartialEq, Eq, Hash, Structural)]
pub struct BindGroupLayout {
    pub raw: RawHandle,
}

/// The layout of a pipeline: the layouts of its bind groups, in order.
#[derive(Clone, Copy, Debug, PartialEq, Eq, Hash, Structural)]
pub struct PipelineLayout {
    pub raw: RawHandle,
}

/// A bind group.
#[derive(Clone, Copy, Debug, PartialEq, Eq, Hash, Structural)]
pub struct BindGroup {
    pub raw: RawHandle,
}

/// A shader module.
#[derive(Clone, Copy, Debug, PartialEq, Eq, Hash, Structural)]
pub struct ShaderModule {
    pub raw: RawHandle,
}

/// A render pipeline.
#[derive(Clone, Copy, Debug, PartialEq, Eq, Hash, Structural)]
pub struct RenderPipeline {
    pub raw: RawHandle,
}

/// A compute pipeline.
#[derive(Clone, Copy, Debug, PartialEq, Eq, Hash, Structural)]
pub struct ComputePipeline {
    pub raw: RawHandle,
}

/// A set of queries, all of one type.
#[derive(Clone, Copy, Debug, PartialEq, Eq, Hash, Structural)]
pub struct QuerySet {
    pub raw: RawHandle,
    pub ty: QueryType,
}

/// An acceleration structure.
#[derive(Clone, Copy, Debug, PartialEq, Eq, Hash, Structural)]
pub struct AccelerationStructure {
    pub raw: RawHandle,
}

/// The table of one kind of resource: a slot for every resource that was ever
/// made, in the order of making, empty once the resource is destroyed.
pub struct Table<T> {
    slots: Vec<Option<T>>,
}

impl<T> View for Table<T> {
    type V = Seq<Option<T>>;

    closed spec fn view(&self) -> Seq<Option<T>> {
        self.slots@
    }
}

impl<T> Table<T> {
    /// Whether the slot exists and holds a resource.
    pub open spec fn holds(&self, index: usize) -> bool {
        index < self@.len() && self@[index as int] is Some
    }

    /// Whether no slot holds a resource.
    pub open spec fn vacant(&self) -> bool {
        forall|i: int| 0 <= i < self@.len() ==> self@[i] is None
    }

    /// A table without slots.
    pub fn new() -> (r: Self)
        ensures
            r@ == Seq::<Option<T>>::empty(),
    {
        let r = Table { slots: Vec::new() };
        assert(r@ =~= Seq::<Option<T>>::empty());
        r
    }

    /// Puts a resource into a new slot at the end and returns the slot.
    pub fn insert(&mut self, value: T) -> (index: usize)
        ensures
            index == old(self)@.len(),
            final(self)@ == old(self)@.push(Some(value)),
            final(self)@.len() <= usize::MAX,
    {
        let index = self.slots.len();
        self.slots.push(Some(value));
        let _ = self.slots.len();
        index
    }

    /// Whether the slot exists and holds a resource.
    pub fn is_live(&self, index: usize) -> (r: bool)
        ensures
            r == self.holds(index),
    {
        index < self.slots.len() && self.slots[index].is_some()
    }

    /// The resource in a slot.
    pub fn get(&self, index: usize) -> (r: &T)
        requires
            self.holds(index),
        ensures
            self@[index as int] == Some(*r),
    {
        self.slots[index].as_ref().unwrap()
    }

    /// Puts another value into a slot that holds a resource.
    pub fn replace(&mut self, index: usize, value: T)
        requires
            old(self).holds(index),
        ensures
            final(self)@ == old(self)@.update(index as int, Some(value)),
    {
        self.slots[index] = Some(value);
    }

    /// Empties a slot and returns what it held.
    pub fn remove(&mut self, index: usize) -> (r: T)
        requires
            old(self).holds(index),
        ensures
            old(self)@[index as int] == Some(r),
            final(self)@ == old(self)@.update(index as int, None),
    {
        let mut taken: Option<T> = None;
        core::mem::swap(&mut self.slots[index], &mut taken);
        taken.unwrap()
    }

    /// Whether no slot holds a resource.
    pub fn is_vacant(&self) -> (r: bool)
        ensures
            r == self.vacant(),
    {
        let mut i: usize = 0;
        while i < self.slots.len()
            invariant
                i <= self.slots.len(),
                forall|j: int| 0 <= j < i ==> self@[j] is None,
            decreases self.slots.len() - i,
        {
            if self.slots[i].is_some() {
                return false;
            }
            i += 1;
        }
        true
    }
}

} // verus!
