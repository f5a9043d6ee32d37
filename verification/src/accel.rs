//! Acceleration structures: what one is built from, how much memory a build
//! needs, and what may change between a build and a later update.
//!
//! A build never takes its input as data. Each entry names a buffer, with an
//! offset, a count and a stride. The shape of the entries is everything but
//! the buffers and the offsets into them: it decides the sizes, and an update
//! has to keep it.

use vstd::prelude::*;

use crate::flags::AccelerationStructureBuildFlags;
use crate::flags::AccelerationStructureGeometryFlags;
use crate::resource::AccelerationStructure;
use crate::resource::Buffer;
use crate::types::BufferAddress;
use crate::types::IndexFormat;
use crate::types::Label;
use crate::types::VertexFormat;
use crate::usage::AccelerationStructureUses;

verus! {

/// The level of an acceleration structure.
#[derive(Clone, Copy, Debug, PartialEq, Eq, Hash, Structural)]
pub enum AccelerationStructureFormat {
    /// Holds instances of bottom-level structures.
    TopLevel,
    /// Holds geometry: triangles or boxes.
    BottomLevel,
}

/// Whether a build starts from nothing or from an earlier build.
#[derive(Clone, Copy, Debug, PartialEq, Eq, Hash, Structural)]
pub enum AccelerationStructureBuildMode {
    Build,
    /// Takes the shape from an earlier build and reads the data anew. Without
    /// a source structure the destination is updated in place.
    Update,
}

/// The memory that a build needs, in bytes.
#[derive(Clone, Copy, Debug, PartialEq, Eq, Hash, Structural)]
pub struct AccelerationStructureBuildSizes {
    pub acceleration_structure_size: BufferAddress,
    pub update_scratch_size: BufferAddress,
    pub build_scratch_size: BufferAddress,
}

impl Default for AccelerationStructureBuildSizes {
    fn default() -> (r: AccelerationStructureBuildSizes)
        ensures
            r.acceleration_structure_size == 0,
            r.update_scratch_size == 0,
            r.build_scratch_size == 0,
    {
        AccelerationStructureBuildSizes {
            acceleration_structure_size: 0,
            update_scratch_size: 0,
            build_scratch_size: 0,
        }
    }
}

/// What an acceleration structure is made with.
#[derive(Clone, Debug, PartialEq, Eq)]
pub struct AccelerationStructureDescriptor<'a> {
    pub label: Label<'a>,
    pub size: BufferAddress,
    pub format: AccelerationStructureFormat,
}

/// The index buffer of a triangle mesh. The offset is in bytes.
#[derive(Clone, Copy, Debug, PartialEq, Eq, Structural)]
pub struct AccelerationStructureTriangleIndices {
    pub format: IndexFormat,
    pub buffer: Option<Buffer>,
    pub offset: u32,
    pub count: u32,
}

/// The transform of a triangle mesh. The offset is in bytes.
#[derive(Clone, Copy, Debug, PartialEq, Eq, Structural)]
pub struct AccelerationStructureTriangleTransform {
    pub buffer: Buffer,
    pub offset: u32,
}

/// One triangle mesh of a bottom-level structure. `first_vertex` counts
/// vertices, not bytes.
#[derive(Clone, Copy, Debug, PartialEq, Eq, Structural)]
pub struct AccelerationStructureTriangles {
    pub vertex_buffer: Option<Buffer>,
    pub vertex_format: VertexFormat,
    pub first_vertex: u32,
    pub vertex_count: u32,
    pub vertex_stride: BufferAddress,
    pub indices: Option<AccelerationStructureTriangleIndices>,
    pub transform: Option<AccelerationStructureTriangleTransform>,
    pub flags: AccelerationStructureGeometryFlags,
}

/// One list of axis-aligned boxes of a bottom-level structure. The offset is
/// in bytes.
#[derive(Clone, Copy, Debug, PartialEq, Eq, Structural)]
pub struct AccelerationStructureAABBs {
    pub buffer: Option<Buffer>,
    pub offset: u32,
    pub count: u32,
    pub stride: BufferAddress,
    pub flags: AccelerationStructureGeometryFlags,
}

/// The instances of a top-level structure. The offset is in bytes.
#[derive(Clone, Copy, Debug, PartialEq, Eq, Structural)]
pub struct AccelerationStructureInstances {
    pub buffer: Option<Buffer>,
    pub offset: u32,
    pub count: u32,
}

/// What one structure is built from.
#[derive(Clone, Debug, PartialEq, Eq)]
pub enum AccelerationStructureEntries {
    /// The instances of a top-level structure.
    Instances(AccelerationStructureInstances),
    /// The triangle meshes of a bottom-level structure.
    Triangles(Vec<AccelerationStructureTriangles>),
    /// The lists of boxes of a bottom-level structure.
    AABBs(Vec<AccelerationStructureAABBs>),
}

/// One build or update of one structure.
#[derive(Clone, Debug, PartialEq, Eq)]
pub struct BuildAccelerationStructureDescriptor {
    pub entries: AccelerationStructureEntries,
    pub mode: AccelerationStructureBuildMode,
    pub flags: AccelerationStructureBuildFlags,
    pub source_acceleration_structure: Option<AccelerationStructure>,
    pub destination_acceleration_structure: AccelerationStructure,
    pub scratch_buffer: Buffer,
    pub scratch_buffer_offset: BufferAddress,
}

/// A question about the memory that a build would need. The buffers and
/// offsets in the entries play no part in the answer.
#[derive(Clone, Debug, PartialEq, Eq)]
pub struct GetAccelerationStructureBuildSizesDescriptor {
    pub entries: AccelerationStructureEntries,
    pub flags: AccelerationStructureBuildFlags,
}

/// A change of usage of all acceleration structures.
#[derive(Debug, PartialEq, Eq)]
pub struct AccelerationStructureBarrier {
    pub usage: core::ops::Range<AccelerationStructureUses>,
}

/// The bytes that every structure takes, apart from its primitives.
pub const STRUCTURE_HEADER_SIZE: u64 = 256;

/// The bytes that one primitive takes in a structure.
pub const STRUCTURE_NODE_SIZE: u64 = 64;

/// The bytes of scratch space that a build takes for one primitive.
pub const BUILD_SCRATCH_NODE_SIZE: u64 = 32;

/// The bytes of scratch space that an update takes for one primitive.
pub const UPDATE_SCRATCH_NODE_SIZE: u64 = 16;

/// The number as a `u64`, or the largest `u64` if it does not fit.
pub open spec fn clamp_to_u64(n: int) -> u64 {
    if n > u64::MAX {
        u64::MAX
    } else if n < 0 {
        0
    } else {
        n as u64
    }
}

impl AccelerationStructureTriangles {
    /// The number of triangles of the mesh: a third of its indices, or of its
    /// vertices where it has no indices.
    pub open spec fn triangle_count(self) -> nat {
        match self.indices {
            Some(indices) => (indices.count / 3) as nat,
            None => (self.vertex_count / 3) as nat,
        }
    }

    /// Whether the two meshes differ in nothing but their buffers and the
    /// offsets into them.
    pub open spec fn same_shape(self, other: Self) -> bool {
        &&& self.vertex_format == other.vertex_format
        &&& self.vertex_count == other.vertex_count
        &&& self.vertex_stride == other.vertex_stride
        &&& self.flags == other.flags
        &&& self.transform is Some == other.transform is Some
        &&& match (self.indices, other.indices) {
            (Some(a), Some(b)) => a.format == b.format && a.count == b.count,
            (None, None) => true,
            _ => false,
        }
    }

    fn count_triangles(&self) -> (r: u32)
        ensures
            r == self.triangle_count(),
    {
        match self.indices {
            Some(indices) => indices.count / 3,
            None => self.vertex_count / 3,
        }
    }

    fn has_same_shape(&self, other: &Self) -> (r: bool)
        ensures
            r == self.same_shape(*other),
    {
        let indices = match (self.indices, other.indices) {
            (Some(a), Some(b)) => a.format == b.format && a.count == b.count,
            (None, None) => true,
            _ => false,
        };
        self.vertex_format == other.vertex_format && self.vertex_count == other.vertex_count
            && self.vertex_stride == other.vertex_stride && self.flags == other.flags
            && self.transform.is_some() == other.transform.is_some() && indices
    }
}

impl AccelerationStructureAABBs {
    /// Whether the two lists differ in nothing but their buffer and the
    /// offset into it.
    pub open spec fn same_shape(self, other: Self) -> bool {
        self.count == other.count && self.stride == other.stride && self.flags == other.flags
    }
}

/// The number of triangles of all meshes together.
pub open spec fn total_triangles(meshes: Seq<AccelerationStructureTriangles>) -> nat
    decreases meshes.len(),
{
    if meshes.len() == 0 {
        0
    } else {
        total_triangles(meshes.drop_last()) + meshes.last().triangle_count()
    }
}

/// The number of boxes of all lists together.
pub open spec fn total_boxes(lists: Seq<AccelerationStructureAABBs>) -> nat
    decreases lists.len(),
{
    if lists.len() == 0 {
        0
    } else {
        total_boxes(lists.drop_last()) + lists.last().count as nat
    }
}

/// The sizes that a build of so many primitives needs: a header and a node
/// for each primitive, scratch space for each primitive, and scratch space
/// for updates only where updates are allowed. Each size stops at the largest
/// `u64`.
pub open spec fn sizes_for(primitives: nat, flags: AccelerationStructureBuildFlags)
    -> AccelerationStructureBuildSizes {
    AccelerationStructureBuildSizes {
        acceleration_structure_size: clamp_to_u64(
            STRUCTURE_HEADER_SIZE + STRUCTURE_NODE_SIZE * primitives,
        ),
        update_scratch_size: if flags@ & AccelerationStructureBuildFlags::ALLOW_UPDATE != 0 {
            clamp_to_u64(UPDATE_SCRATCH_NODE_SIZE * primitives)
        } else {
            0
        },
        build_scratch_size: clamp_to_u64(BUILD_SCRATCH_NODE_SIZE * primitives),
    }
}

impl AccelerationStructureEntries {
    /// The level of structure that the entries build.
    pub open spec fn spec_format(&self) -> AccelerationStructureFormat {
        match self {
            AccelerationStructureEntries::Instances(_) => AccelerationStructureFormat::TopLevel,
            _ => AccelerationStructureFormat::BottomLevel,
        }
    }

    /// The number of primitives: instances, triangles or boxes.
    pub open spec fn primitive_count(&self) -> nat {
        match self {
            AccelerationStructureEntries::Instances(instances) => instances.count as nat,
            AccelerationStructureEntries::Triangles(meshes) => total_triangles(meshes@),
            AccelerationStructureEntries::AABBs(lists) => total_boxes(lists@),
        }
    }

    /// Whether the two differ in nothing but their buffers and the offsets
    /// into them: the same kind, as many groups, and group by group the same
    /// counts, formats, strides and flags.
    pub open spec fn same_shape(&self, other: &Self) -> bool {
        match (self, other) {
            (
                AccelerationStructureEntries::Instances(a),
                AccelerationStructureEntries::Instances(b),
            ) => a.count == b.count,
            (
                AccelerationStructureEntries::Triangles(a),
                AccelerationStructureEntries::Triangles(b),
            ) => a@.len() == b@.len() && forall|i: int|
                0 <= i < a@.len() ==> (#[trigger] a@[i]).same_shape(b@[i]),
            (
                AccelerationStructureEntries::AABBs(a),
                AccelerationStructureEntries::AABBs(b),
            ) => a@.len() == b@.len() && forall|i: int|
                0 <= i < a@.len() ==> (#[trigger] a@[i]).same_shape(b@[i]),
            _ => false,
        }
    }

    /// Whether these entries ask for no more than the others: the same kind,
    /// no more groups, and group by group no more primitives.
    pub open spec fn no_larger_than(&self, other: &Self) -> bool {
        match (self, other) {
            (
                AccelerationStructureEntries::Instances(a),
                AccelerationStructureEntries::Instances(b),
            ) => a.count <= b.count,
            (
                AccelerationStructureEntries::Triangles(a),
                AccelerationStructureEntries::Triangles(b),
            ) => a@.len() <= b@.len() && forall|i: int|
                0 <= i < a@.len() ==> (#[trigger] a@[i]).triangle_count() <= b@[i].triangle_count(),
            (
                AccelerationStructureEntries::AABBs(a),
                AccelerationStructureEntries::AABBs(b),
            ) => a@.len() <= b@.len() && forall|i: int|
                0 <= i < a@.len() ==> (#[trigger] a@[i]).count <= b@[i].count,
            _ => false,
        }
    }

    /// The level of structure that the entries build.
    pub fn format(&self) -> (r: AccelerationStructureFormat)
        ensures
            r == self.spec_format(),
    {
        match self {
            AccelerationStructureEntries::Instances(_) => AccelerationStructureFormat::TopLevel,
            _ => AccelerationStructureFormat::BottomLevel,
        }
    }

    /// The number of primitives, or the largest `u64` if there are more.
    pub fn count_primitives(&self) -> (r: u64)
        ensures
            r == clamp_to_u64(self.primitive_count() as int),
    {
        match self {
            AccelerationStructureEntries::Instances(instances) => instances.count as u64,
            AccelerationStructureEntries::Triangles(meshes) => {
                let mut total: u64 = 0;
                let mut i: usize = 0;
                while i < meshes.len()
                    invariant
                        i <= meshes@.len(),
                        total == clamp_to_u64(total_triangles(meshes@.take(i as int)) as int),
                    decreases meshes@.len() - i,
                {
                    proof {
                        assert(meshes@.take(i + 1).drop_last() == meshes@.take(i as int));
                    }
                    total = total.saturating_add(meshes[i].count_triangles() as u64);
                    i += 1;
                }
                proof {
                    assert(meshes@.take(i as int) == meshes@);
                }
                total
            },
            AccelerationStructureEntries::AABBs(lists) => {
                let mut total: u64 = 0;
                let mut i: usize = 0;
                while i < lists.len()
                    invariant
                        i <= lists@.len(),
                        total == clamp_to_u64(total_boxes(lists@.take(i as int)) as int),
                    decreases lists@.len() - i,
                {
                    proof {
                        assert(lists@.take(i + 1).drop_last() == lists@.take(i as int));
                    }
                    total = total.saturating_add(lists[i].count as u64);
                    i += 1;
                }
                proof {
                    assert(lists@.take(i as int) == lists@);
                }
                total
            },
        }
    }

    /// Whether the two differ in nothing but their buffers and the offsets
    /// into them. An update is sound only with entries of the shape that the
    /// structure was built with.
    pub fn has_same_shape(&self, other: &Self) -> (r: bool)
        ensures
            r == self.same_shape(other),
    {
        match (self, other) {
            (
                AccelerationStructureEntries::Instances(a),
                AccelerationStructureEntries::Instances(b),
            ) => a.count == b.count,
            (
                AccelerationStructureEntries::Triangles(a),
                AccelerationStructureEntries::Triangles(b),
            ) => meshes_have_same_shape(a, b),
            (AccelerationStructureEntries::AABBs(a), AccelerationStructureEntries::AABBs(b)) => {
                box_lists_have_same_shape(a, b)
            },
            _ => false,
        }
    }
}

fn meshes_have_same_shape(
    a: &Vec<AccelerationStructureTriangles>,
    b: &Vec<AccelerationStructureTriangles>,
) -> (r: bool)
    ensures
        r == (a@.len() == b@.len() && forall|i: int|
            0 <= i < a@.len() ==> (#[trigger] a@[i]).same_shape(b@[i])),
{
    if a.len() != b.len() {
        return false;
    }
    let mut i: usize = 0;
    while i < a.len()
        invariant
            i <= a@.len(),
            a@.len() == b@.len(),
            forall|j: int| 0 <= j < i ==> (#[trigger] a@[j]).same_shape(b@[j]),
        decreases a@.len() - i,
    {
        if !a[i].has_same_shape(&b[i]) {
            assert(!a@[i as int].same_shape(b@[i as int]));
            return false;
        }
        i += 1;
    }
    true
}

fn box_lists_have_same_shape(
    a: &Vec<AccelerationStructureAABBs>,
    b: &Vec<AccelerationStructureAABBs>,
) -> (r: bool)
    ensures
        r == (a@.len() == b@.len() && forall|i: int|
            0 <= i < a@.len() ==> (#[trigger] a@[i]).same_shape(b@[i])),
{
    if a.len() != b.len() {
        return false;
    }
    let mut i: usize = 0;
    while i < a.len()
        invariant
            i <= a@.len(),
            a@.len() == b@.len(),
            forall|j: int| 0 <= j < i ==> (#[trigger] a@[j]).same_shape(b@[j]),
        decreases a@.len() - i,
    {
        if !(a[i].count == b[i].count && a[i].stride == b[i].stride && a[i].flags == b[i].flags) {
            assert(!a@[i as int].same_shape(b@[i as int]));
            return false;
        }
        i += 1;
    }
    true
}

/// The memory that a build of these entries needs with these flags. The
/// answer is an upper bound: it depends on the shape of the entries alone,
/// and entries that ask for no more never need more.
pub fn build_sizes(entries: &AccelerationStructureEntries, flags: AccelerationStructureBuildFlags)
    -> (r: AccelerationStructureBuildSizes)
    ensures
        r == sizes_for(entries.primitive_count(), flags),
{
    let primitives = entries.count_primitives();
    let structure = match STRUCTURE_NODE_SIZE.checked_mul(primitives) {
        Some(nodes) => nodes.saturating_add(STRUCTURE_HEADER_SIZE),
        None => u64::MAX,
    };
    let build = match BUILD_SCRATCH_NODE_SIZE.checked_mul(primitives) {
        Some(scratch) => scratch,
        None => u64::MAX,
    };
    let update = if flags.bits & AccelerationStructureBuildFlags::ALLOW_UPDATE != 0 {
        match UPDATE_SCRATCH_NODE_SIZE.checked_mul(primitives) {
            Some(scratch) => scratch,
            None => u64::MAX,
        }
    } else {
        0
    };
    AccelerationStructureBuildSizes {
        acceleration_structure_size: structure,
        update_scratch_size: update,
        build_scratch_size: build,
    }
}

impl BuildAccelerationStructureDescriptor {
    /// Whether two builds of one call get in each other's way: they share
    /// their scratch buffer or their destination, or one writes the structure
    /// that the other reads.
    pub open spec fn conflicts_with(&self, other: &Self) -> bool {
        ||| self.scratch_buffer == other.scratch_buffer
        ||| self.destination_acceleration_structure == other.destination_acceleration_structure
        ||| self.source_acceleration_structure == Some(other.destination_acceleration_structure)
        ||| other.source_acceleration_structure == Some(self.destination_acceleration_structure)
    }

    /// Whether the build updates its destination in place.
    pub open spec fn spec_is_update_in_place(&self) -> bool {
        self.mode == AccelerationStructureBuildMode::Update && (
        self.source_acceleration_structure is None || self.source_acceleration_structure == Some(
            self.destination_acceleration_structure,
        ))
    }

    /// Whether the build updates its destination in place: it is an update,
    /// and names no source or names the destination as its source.
    #[verifier::when_used_as_spec(spec_is_update_in_place)]
    pub fn is_update_in_place(&self) -> (r: bool)
        ensures
            r == self.spec_is_update_in_place(),
    {
        let in_place = match self.source_acceleration_structure {
            None => true,
            Some(source) => source == self.destination_acceleration_structure,
        };
        self.mode == AccelerationStructureBuildMode::Update && in_place
    }

    fn has_conflict_with(&self, other: &Self) -> (r: bool)
        ensures
            r == self.conflicts_with(other),
    {
        let reads_other = match self.source_acceleration_structure {
            Some(source) => source == other.destination_acceleration_structure,
            None => false,
        };
        let read_by_other = match other.source_acceleration_structure {
            Some(source) => source == self.destination_acceleration_structure,
            None => false,
        };
        self.scratch_buffer == other.scratch_buffer || self.destination_acceleration_structure
            == other.destination_acceleration_structure || reads_other || read_by_other
    }
}

/// The builds of one call can run together: no two of them share a scratch
/// buffer or a destination, and none writes a structure that another reads.
pub open spec fn batch_is_sound(descriptors: Seq<BuildAccelerationStructureDescriptor>) -> bool {
    forall|i: int, j: int|
        0 <= i < j < descriptors.len() ==> !(#[trigger] descriptors[i]).conflicts_with(
            #[trigger] &descriptors[j],
        )
}

/// Whether the builds can be recorded in one call.
pub fn is_sound_batch(descriptors: &Vec<BuildAccelerationStructureDescriptor>) -> (r: bool)
    ensures
        r == batch_is_sound(descriptors@),
{
    let mut j: usize = 0;
    while j < descriptors.len()
        invariant
            j <= descriptors@.len(),
            forall|a: int, b: int|
                0 <= a < b < j ==> !(#[trigger] descriptors@[a]).conflicts_with(
                    #[trigger] &descriptors@[b],
                ),
        decreases descriptors@.len() - j,
    {
        let mut i: usize = 0;
        while i < j
            invariant
                j < descriptors@.len(),
                i <= j,
                forall|a: int|
                    0 <= a < i ==> !(#[trigger] descriptors@[a]).conflicts_with(
                        &descriptors@[j as int],
                    ),
            decreases j - i,
        {
            if descriptors[i].has_conflict_with(&descriptors[j]) {
                assert(descriptors@[i as int].conflicts_with(&descriptors@[j as int]));
                return false;
            }
            i += 1;
        }
        j += 1;
    }
    true
}

proof fn lemma_total_triangles_same(
    a: Seq<AccelerationStructureTriangles>,
    b: Seq<AccelerationStructureTriangles>,
)
    requires
        a.len() == b.len(),
        forall|i: int| 0 <= i < a.len() ==> (#[trigger] a[i]).same_shape(b[i]),
    ensures
        total_triangles(a) == total_triangles(b),
    decreases a.len(),
{
    if a.len() > 0 {
        lemma_total_triangles_same(a.drop_last(), b.drop_last());
        assert(a.last().same_shape(b.last()));
    }
}

proof fn lemma_total_boxes_same(
    a: Seq<AccelerationStructureAABBs>,
    b: Seq<AccelerationStructureAABBs>,
)
    requires
        a.len() == b.len(),
        forall|i: int| 0 <= i < a.len() ==> (#[trigger] a[i]).same_shape(b[i]),
    ensures
        total_boxes(a) == total_boxes(b),
    decreases a.len(),
{
    if a.len() > 0 {
        lemma_total_boxes_same(a.drop_last(), b.drop_last());
        assert(a.last().same_shape(b.last()));
    }
}

proof fn lemma_total_triangles_monotonic(
    a: Seq<AccelerationStructureTriangles>,
    b: Seq<AccelerationStructureTriangles>,
)
    requires
        a.len() <= b.len(),
        forall|i: int|
            0 <= i < a.len() ==> (#[trigger] a[i]).triangle_count() <= b[i].triangle_count(),
    ensures
        total_triangles(a) <= total_triangles(b),
    decreases b.len(),
{
    if b.len() > 0 {
        if a.len() == b.len() {
            lemma_total_triangles_monotonic(a.drop_last(), b.drop_last());
            assert(a.last().triangle_count() <= b[a.len() - 1].triangle_count());
        } else {
            lemma_total_triangles_monotonic(a, b.drop_last());
        }
    }
}

proof fn lemma_total_boxes_monotonic(
    a: Seq<AccelerationStructureAABBs>,
    b: Seq<AccelerationStructureAABBs>,
)
    requires
        a.len() <= b.len(),
        forall|i: int| 0 <= i < a.len() ==> (#[trigger] a[i]).count <= b[i].count,
    ensures
        total_boxes(a) <= total_boxes(b),
    decreases b.len(),
{
    if b.len() > 0 {
        if a.len() == b.len() {
            lemma_total_boxes_monotonic(a.drop_last(), b.drop_last());
            assert(a.last().count <= b[a.len() - 1].count);
        } else {
            lemma_total_boxes_monotonic(a, b.drop_last());
        }
    }
}

/// An update changes no size: entries of the same shape need the same memory,
/// whatever buffers they name.
pub proof fn lemma_same_shape_same_sizes(
    built: &AccelerationStructureEntries,
    updated: &AccelerationStructureEntries,
    flags: AccelerationStructureBuildFlags,
)
    requires
        built.same_shape(updated),
    ensures
        updated.spec_format() == built.spec_format(),
        updated.primitive_count() == built.primitive_count(),
        sizes_for(updated.primitive_count(), flags) == sizes_for(built.primitive_count(), flags),
{
    match (built, updated) {
        (
            AccelerationStructureEntries::Triangles(a),
            AccelerationStructureEntries::Triangles(b),
        ) => {
            lemma_total_triangles_same(a@, b@);
        },
        (AccelerationStructureEntries::AABBs(a), AccelerationStructureEntries::AABBs(b)) => {
            lemma_total_boxes_same(a@, b@);
        },
        _ => {},
    }
}

/// The sizes are an upper bound: entries that ask for no more than others,
/// with the same flags, never need more memory than they do.
pub proof fn lemma_sizes_monotonic(
    smaller: &AccelerationStructureEntries,
    larger: &AccelerationStructureEntries,
    flags: AccelerationStructureBuildFlags,
)
    requires
        smaller.no_larger_than(larger),
    ensures
        smaller.primitive_count() <= larger.primitive_count(),
        sizes_for(smaller.primitive_count(), flags).acceleration_structure_size <= sizes_for(
            larger.primitive_count(),
            flags,
        ).acceleration_structure_size,
        sizes_for(smaller.primitive_count(), flags).build_scratch_size <= sizes_for(
            larger.primitive_count(),
            flags,
        ).build_scratch_size,
        sizes_for(smaller.primitive_count(), flags).update_scratch_size <= sizes_for(
            larger.primitive_count(),
            flags,
        ).update_scratch_size,
{
    match (smaller, larger) {
        (
            AccelerationStructureEntries::Triangles(a),
            AccelerationStructureEntries::Triangles(b),
        ) => {
            lemma_total_triangles_monotonic(a@, b@);
        },
        (AccelerationStructureEntries::AABBs(a), AccelerationStructureEntries::AABBs(b)) => {
            lemma_total_boxes_monotonic(a@, b@);
        },
        _ => {},
    }
}

} // verus!
