//! The commands that an encoder records, and the plain data they carry.

use vstd::prelude::*;

use crate::accel::AccelerationStructureBarrier;
use crate::accel::BuildAccelerationStructureDescriptor;
use crate::aspects::FormatAspects;
use crate::flags::AttachmentOps;
use crate::flags::ShaderStages;
use crate::resource::BindGroup;
use crate::resource::Buffer;
use crate::resource::ComputePipeline;
use crate::resource::PipelineLayout;
use crate::resource::QuerySet;
use crate::resource::RenderPipeline;
use crate::resource::Texture;
use crate::resource::TextureView;
use crate::types::BufferAddress;
use crate::types::DynamicOffset;
use crate::types::Extent3d;
use crate::types::ImageDataLayout;
use crate::types::ImageSubresourceRange;
use crate::types::IndexFormat;
use crate::types::MemoryRange;
use crate::types::Origin3d;
use crate::types::Rect;
use crate::usage::BufferUses;
use crate::usage::TextureUses;

verus! {

/// A declared change of usage of a buffer, from the start of the range to
/// its end.
#[derive(Debug, PartialEq, Eq)]
pub struct BufferBarrier {
    pub buffer: Buffer,
    pub usage: core::ops::Range<BufferUses>,
}

/// A declared change of usage of a part of a texture, from the start of the
/// range to its end.
#[derive(Debug, PartialEq, Eq)]
pub struct TextureBarrier {
    pub texture: Texture,
    pub range: ImageSubresourceRange,
    pub usage: core::ops::Range<TextureUses>,
}

impl BufferBarrier {
    /// Whether the change has to be declared at all: a usage that stays the
    /// same and that the hardware orders by itself needs no barrier.
    pub fn is_needed(&self) -> (r: bool)
        ensures
            r == BufferUses::transition_required(self.usage.start, self.usage.end),
    {
        BufferUses::requires_transition(self.usage.start, self.usage.end)
    }
}

impl TextureBarrier {
    /// Whether the change has to be declared at all: a usage that stays the
    /// same and that the hardware orders by itself needs no barrier.
    pub fn is_needed(&self) -> (r: bool)
        ensures
            r == TextureUses::transition_required(self.usage.start, self.usage.end),
    {
        TextureUses::requires_transition(self.usage.start, self.usage.end)
    }
}

/// One region of a copy between buffers. The size is not zero.
#[derive(Clone, Copy, Debug, PartialEq, Eq, Structural)]
pub struct BufferCopy {
    pub src_offset: BufferAddress,
    pub dst_offset: BufferAddress,
    pub size: BufferAddress,
}

/// Where a copy touches a texture. For textures of one or two dimensions the
/// third coordinate of the origin is zero.
#[derive(Clone, Copy, Debug, PartialEq, Eq, Structural)]
pub struct TextureCopyBase {
    pub mip_level: u32,
    pub array_layer: u32,
    pub origin: Origin3d,
    pub aspect: FormatAspects,
}

/// The extent of a copy, in texels, rounded up to whole blocks.
#[derive(Clone, Copy, Debug, PartialEq, Eq, Structural)]
pub struct CopyExtent {
    pub width: u32,
    pub height: u32,
    pub depth: u32,
}

/// One region of a copy between textures. It covers one array layer.
#[derive(Clone, Copy, Debug, PartialEq, Eq, Structural)]
pub struct TextureCopy {
    pub src_base: TextureCopyBase,
    pub dst_base: TextureCopyBase,
    pub size: CopyExtent,
}

/// One region of a copy between a buffer and a texture. It covers one array
/// layer.
#[derive(Clone, Copy, Debug, PartialEq, Eq, Structural)]
pub struct BufferTextureCopy {
    pub buffer_layout: ImageDataLayout,
    pub texture_base: TextureCopyBase,
    pub size: CopyExtent,
}

/// A region of a buffer that is bound. The offset lies inside the buffer;
/// without a size the region reaches to the end of the buffer, so it is never
/// empty.
#[derive(Clone, Copy, Debug, PartialEq, Eq, Structural)]
pub struct BufferBinding {
    pub buffer: Buffer,
    pub offset: BufferAddress,
    pub size: Option<BufferAddress>,
}

/// A texture view that is bound, with the usage it is bound for.
#[derive(Clone, Copy, Debug, PartialEq, Eq, Structural)]
pub struct TextureBinding {
    pub view: TextureView,
    pub usage: TextureUses,
}

/// A view that a render pass draws to. The usage is either one usage that
/// writes, or a set of usages that only read.
#[derive(Clone, Copy, Debug, PartialEq, Eq, Structural)]
pub struct Attachment {
    pub view: TextureView,
    pub usage: TextureUses,
}

/// A color attachment of a render pass. The clear value holds red, green,
/// blue and alpha, each as the bits of a 64-bit floating-point number.
#[derive(Clone, Copy, Debug, PartialEq, Eq)]
pub struct ColorAttachment {
    pub target: Attachment,
    pub resolve_target: Option<Attachment>,
    pub ops: AttachmentOps,
    pub clear_value: [u64; 4],
}

/// The depth-stencil attachment of a render pass. The clear value holds the
/// depth, as the bits of a 32-bit floating-point number, and the stencil.
#[derive(Clone, Copy, Debug, PartialEq, Eq)]
pub struct DepthStencilAttachment {
    pub target: Attachment,
    pub depth_ops: AttachmentOps,
    pub stencil_ops: AttachmentOps,
    pub clear_value: (u32, u32),
}

/// The timestamps that a render pass writes at its start and at its end.
#[derive(Clone, Copy, Debug, PartialEq, Eq, Structural)]
pub struct RenderPassTimestampWrites {
    pub query_set: QuerySet,
    pub beginning_of_pass_write_index: Option<u32>,
    pub end_of_pass_write_index: Option<u32>,
}

/// What a render pass draws to, and what it measures.
#[derive(Clone, Debug, PartialEq, Eq)]
pub struct RenderPassDescriptor {
    pub label: Option<String>,
    pub extent: Extent3d,
    pub sample_count: u32,
    pub color_attachments: Vec<Option<ColorAttachment>>,
    pub depth_stencil_attachment: Option<DepthStencilAttachment>,
    /// The number of array layers drawn at once, where it is not one. Never
    /// zero.
    pub multiview: Option<u32>,
    pub timestamp_writes: Option<RenderPassTimestampWrites>,
    pub occlusion_query_set: Option<QuerySet>,
}

impl ColorAttachment {
    /// Whether the pass writes to the texture through this attachment: as
    /// its target, or as the target that it resolves into.
    pub open spec fn writes_texture(&self, texture: Texture) -> bool {
        self.target.view.texture == texture || match self.resolve_target {
            Some(resolve) => resolve.view.texture == texture,
            None => false,
        }
    }
}

/// Whether the pass writes to the texture through the attachment in a slot.
pub open spec fn slot_writes_texture(slot: Option<ColorAttachment>, texture: Texture) -> bool {
    match slot {
        Some(color) => color.writes_texture(texture),
        None => false,
    }
}

impl RenderPassDescriptor {
    /// Whether the pass writes to the texture: through one of its color
    /// attachments, or through its depth-stencil attachment.
    pub open spec fn writes_texture(&self, texture: Texture) -> bool {
        ||| exists|i: int|
            0 <= i < self.color_attachments@.len() && #[trigger] slot_writes_texture(
                self.color_attachments@[i],
                texture,
            )
        ||| match self.depth_stencil_attachment {
            Some(depth) => depth.target.view.texture == texture,
            None => false,
        }
    }

    /// The textures of surfaces that the pass writes to.
    pub open spec fn surface_targets(&self) -> Set<Texture> {
        Set::new(|texture: Texture| texture.surface is Some && self.writes_texture(texture))
    }

    /// The textures of surfaces that the pass writes to. A texture may come
    /// more than once.
    pub fn collect_surface_targets(&self) -> (r: Vec<Texture>)
        ensures
            r@.to_set() == self.surface_targets(),
    {
        let mut targets: Vec<Texture> = Vec::new();
        let mut i: usize = 0;
        while i < self.color_attachments.len()
            invariant
                i <= self.color_attachments@.len(),
                forall|t: Texture|
                    targets@.contains(t) <==> t.surface is Some && exists|j: int|
                        0 <= j < i && #[trigger] slot_writes_texture(self.color_attachments@[j], t),
            decreases self.color_attachments@.len() - i,
        {
            let ghost before = targets@;
            if let Some(color) = &self.color_attachments[i] {
                push_if_surface(&mut targets, color.target.view.texture);
                if let Some(resolve) = &color.resolve_target {
                    push_if_surface(&mut targets, resolve.view.texture);
                }
            }
            proof {
                let slot = self.color_attachments@[i as int];
                assert forall|t: Texture|
                    targets@.contains(t) <==> t.surface is Some && exists|j: int|
                        0 <= j < i + 1 && #[trigger] slot_writes_texture(
                            self.color_attachments@[j],
                            t,
                        ) by {
                    let here = t.surface is Some && slot_writes_texture(slot, t);
                    assert(targets@.contains(t) <==> before.contains(t) || here);
                    if before.contains(t) {
                        let j = choose|j: int|
                            0 <= j < i && #[trigger] slot_writes_texture(
                                self.color_attachments@[j],
                                t,
                            );
                        assert(0 <= j < i + 1);
                    }
                    if here {
                        assert(slot_writes_texture(self.color_attachments@[i as int], t));
                    }
                }
            }
            i += 1;
        }
        if let Some(depth) = &self.depth_stencil_attachment {
            push_if_surface(&mut targets, depth.target.view.texture);
        }
        assert(targets@.to_set() =~= self.surface_targets());
        targets
    }
}

fn push_if_surface(targets: &mut Vec<Texture>, texture: Texture)
    ensures
        forall|t: Texture|
            final(targets)@.contains(t) <==> old(targets)@.contains(t) || (t == texture
                && texture.surface is Some),
{
    if texture.surface.is_some() {
        targets.push(texture);
        proof {
            let before = old(targets)@;
            assert forall|t: Texture| before.push(texture).contains(t) <==> before.contains(t) || t
                == texture by {
                if before.contains(t) {
                    let i = choose|i: int| 0 <= i < before.len() && before[i] == t;
                    assert(before.push(texture)[i] == t);
                }
                if t == texture {
                    assert(before.push(texture)[before.len() as int] == t);
                }
            }
        }
    }
}

/// The timestamps that a compute pass writes at its start and at its end.
#[derive(Clone, Copy, Debug, PartialEq, Eq, Structural)]
pub struct ComputePassTimestampWrites {
    pub query_set: QuerySet,
    pub beginning_of_pass_write_index: Option<u32>,
    pub end_of_pass_write_index: Option<u32>,
}

/// What a compute pass measures.
#[derive(Clone, Debug, PartialEq, Eq)]
pub struct ComputePassDescriptor {
    pub label: Option<String>,
    pub timestamp_writes: Option<ComputePassTimestampWrites>,
}

/// One recorded command. A command buffer is a list of these, in the order
/// in which they were recorded.
#[allow(inconsistent_fields)]
#[derive(Debug, PartialEq, Eq)]
pub enum Command {
    TransitionBuffers { barriers: Vec<BufferBarrier> },
    TransitionTextures { barriers: Vec<TextureBarrier> },
    ClearBuffer { buffer: Buffer, range: MemoryRange },
    CopyBufferToBuffer { src: Buffer, dst: Buffer, regions: Vec<BufferCopy> },
    CopyTextureToTexture {
        src: Texture,
        src_usage: TextureUses,
        dst: Texture,
        regions: Vec<TextureCopy>,
    },
    CopyBufferToTexture { src: Buffer, dst: Texture, regions: Vec<BufferTextureCopy> },
    CopyTextureToBuffer {
        src: Texture,
        src_usage: TextureUses,
        dst: Buffer,
        regions: Vec<BufferTextureCopy>,
    },
    SetBindGroup {
        layout: PipelineLayout,
        index: u32,
        group: BindGroup,
        dynamic_offsets: Vec<DynamicOffset>,
    },
    SetPushConstants {
        layout: PipelineLayout,
        stages: ShaderStages,
        offset_bytes: u32,
        data: Vec<u32>,
    },
    InsertDebugMarker { label: String },
    BeginDebugMarker { group_label: String },
    EndDebugMarker,
    BeginQuery { set: QuerySet, index: u32 },
    EndQuery { set: QuerySet, index: u32 },
    WriteTimestamp { set: QuerySet, index: u32 },
    ResetQueries { set: QuerySet, range: core::ops::Range<u32> },
    CopyQueryResults {
        set: QuerySet,
        range: core::ops::Range<u32>,
        buffer: Buffer,
        offset: BufferAddress,
        stride: BufferAddress,
    },
    BeginRenderPass { desc: RenderPassDescriptor },
    EndRenderPass,
    SetRenderPipeline { pipeline: RenderPipeline },
    SetIndexBuffer { binding: BufferBinding, format: IndexFormat },
    SetVertexBuffer { index: u32, binding: BufferBinding },
    /// The rectangle and the depth range hold the bits of 32-bit
    /// floating-point numbers.
    SetViewport { rect: Rect<u32>, depth_range: core::ops::Range<u32> },
    SetScissorRect { rect: Rect<u32> },
    SetStencilReference { value: u32 },
    /// The color holds the bits of four 32-bit floating-point numbers.
    SetBlendConstants { color: [u32; 4] },
    Draw { first_vertex: u32, vertex_count: u32, first_instance: u32, instance_count: u32 },
    DrawIndexed {
        first_index: u32,
        index_count: u32,
        base_vertex: i32,
        first_instance: u32,
        instance_count: u32,
    },
    DrawIndirect { buffer: Buffer, offset: BufferAddress, draw_count: u32 },
    DrawIndexedIndirect { buffer: Buffer, offset: BufferAddress, draw_count: u32 },
    DrawIndirectCount {
        buffer: Buffer,
        offset: BufferAddress,
        count_buffer: Buffer,
        count_offset: BufferAddress,
        max_count: u32,
    },
    DrawIndexedIndirectCount {
        buffer: Buffer,
        offset: BufferAddress,
        count_buffer: Buffer,
        count_offset: BufferAddress,
        max_count: u32,
    },
    BeginComputePass { desc: ComputePassDescriptor },
    EndComputePass,
    SetComputePipeline { pipeline: ComputePipeline },
    Dispatch { count: [u32; 3] },
    DispatchIndirect { buffer: Buffer, offset: BufferAddress },
    BuildAccelerationStructures { descriptors: Vec<BuildAccelerationStructureDescriptor> },
    PlaceAccelerationStructureBarrier { barrier: AccelerationStructureBarrier },
}

} // verus!
