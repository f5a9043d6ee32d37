//! The command encoder: a recording context and the pool that its command
//! buffers live in.
//!
//! An encoder is either closed or recording. `begin_encoding` opens a closed
//! encoder; the recording operations append to the list of commands;
//! `end_encoding` closes the encoder and hands the list out as a command
//! buffer; `discard_encoding` closes it and drops the list. `reset_all` takes
//! every command buffer back and leaves the encoder as it was when it was
//! made.
//!
//! While recording, an encoder is outside any pass, in a render pass or in a
//! compute pass. Entering a pass unbinds everything: no pipeline, bind group,
//! vertex buffer or index buffer lasts from one pass into the next.
//!
//! The encoder checks nothing. The state an operation needs is its
//! precondition, and [`CommandEncoder::is_recording`], [`CommandEncoder::pass`]
//! and their siblings let a caller test it first.

use vstd::prelude::*;
use vstd::slice::slice_to_vec;

use crate::accel::AccelerationStructureBarrier;
use crate::accel::BuildAccelerationStructureDescriptor;
use crate::accel::batch_is_sound;
use crate::command::BufferBarrier;
use crate::command::BufferBinding;
use crate::command::BufferCopy;
use crate::command::BufferTextureCopy;
use crate::command::Command;
use crate::command::ComputePassDescriptor;
use crate::command::RenderPassDescriptor;
use crate::command::TextureBarrier;
use crate::command::TextureCopy;
use crate::error::DeviceError;
use crate::flags::ShaderStages;
use crate::resource::BindGroup;
use crate::resource::Buffer;
use crate::resource::ComputePipeline;
use crate::resource::PipelineLayout;
use crate::resource::QuerySet;
use crate::resource::RawHandle;
use crate::resource::RenderPipeline;
use crate::resource::Texture;
use crate::types::BufferAddress;
use crate::types::DynamicOffset;
use crate::types::IndexFormat;
use crate::types::Label;
use crate::types::MemoryRange;
use crate::types::QueryType;
use crate::types::Rect;
use crate::types::MAX_BIND_GROUPS;
use crate::types::MAX_VERTEX_BUFFERS;
use crate::usage::TextureUses;

verus! {

/// Where a recording encoder stands with respect to passes.
#[derive(Clone, Copy, Debug, PartialEq, Eq, Hash, Structural)]
pub enum Pass {
    Outside,
    Render,
    Compute,
}

/// A bind group in a slot, with the pipeline layout it was set with.
#[derive(Clone, Copy, Debug, PartialEq, Eq, Hash, Structural)]
pub struct BoundGroup {
    pub layout: PipelineLayout,
    pub group: BindGroup,
}

/// An index buffer that is bound, with the width of its indices.
#[derive(Clone, Copy, Debug, PartialEq, Eq, Structural)]
pub struct BoundIndexBuffer {
    pub binding: BufferBinding,
    pub format: IndexFormat,
}

/// The pipeline layout that the bind group in a slot was set with.
pub open spec fn slot_layout(slot: Option<BoundGroup>) -> Option<PipelineLayout> {
    match slot {
        Some(bound) => Some(bound.layout),
        None => None,
    }
}

/// The text of a label.
pub open spec fn label_text(label: Label) -> Option<Seq<char>> {
    match label {
        Some(text) => Some(text@),
        None => None,
    }
}

/// The text of a label that is kept.
pub open spec fn kept_label_text(label: Option<String>) -> Option<Seq<char>> {
    match label {
        Some(text) => Some(text@),
        None => None,
    }
}

/// The state of an encoder.
pub struct EncoderView {
    /// Whether the encoder is recording; closed otherwise.
    pub recording: bool,
    pub pass: Pass,
    /// The label given when recording began.
    pub label: Option<Seq<char>>,
    /// The commands recorded since recording began.
    pub commands: Seq<Command>,
    /// The number of command buffers that the encoder has handed out and not
    /// taken back. They hold the slots below this number.
    pub live: nat,
    /// The textures of surfaces that the commands recorded so far write to.
    pub surface_writes: Set<Texture>,
    pub render_pipeline: Option<RenderPipeline>,
    pub compute_pipeline: Option<ComputePipeline>,
    /// One slot for each bind group index.
    pub bind_groups: Seq<Option<BoundGroup>>,
    /// One slot for each vertex buffer index.
    pub vertex_buffers: Seq<Option<BufferBinding>>,
    pub index_buffer: Option<BoundIndexBuffer>,
    /// The occlusion query set of the render pass that the encoder is in.
    pub occlusion_query_set: Option<QuerySet>,
}

impl EncoderView {
    /// Every state has one slot for each bind group index and one for each
    /// vertex buffer index.
    pub open spec fn wf(self) -> bool {
        &&& self.bind_groups.len() == MAX_BIND_GROUPS
        &&& self.vertex_buffers.len() == MAX_VERTEX_BUFFERS
    }

    /// The state of an encoder that has just been made: closed, with no
    /// command buffer out.
    pub open spec fn fresh() -> EncoderView {
        EncoderView {
            recording: false,
            pass: Pass::Outside,
            label: None,
            commands: Seq::empty(),
            live: 0,
            surface_writes: Set::empty(),
            render_pipeline: None,
            compute_pipeline: None,
            bind_groups: Seq::new(MAX_BIND_GROUPS as nat, |i: int| None),
            vertex_buffers: Seq::new(MAX_VERTEX_BUFFERS as nat, |i: int| None),
            index_buffer: None,
            occlusion_query_set: None,
        }
    }

    /// The same state with nothing bound.
    pub open spec fn unbound(self) -> EncoderView {
        EncoderView {
            render_pipeline: None,
            compute_pipeline: None,
            bind_groups: Seq::new(MAX_BIND_GROUPS as nat, |i: int| None),
            vertex_buffers: Seq::new(MAX_VERTEX_BUFFERS as nat, |i: int| None),
            index_buffer: None,
            occlusion_query_set: None,
            ..self
        }
    }

    /// The same state, closed, with no commands.
    pub open spec fn closed(self) -> EncoderView {
        EncoderView {
            recording: false,
            pass: Pass::Outside,
            label: None,
            commands: Seq::empty(),
            surface_writes: Set::empty(),
            ..self.unbound()
        }
    }

    /// Whether recording can begin: the encoder is closed.
    pub open spec fn can_begin(self) -> bool {
        !self.recording
    }

    /// Whether recording can end with a command buffer: the encoder is
    /// recording, outside any pass.
    pub open spec fn can_end(self) -> bool {
        self.recording && self.pass == Pass::Outside
    }

    /// Whether the recording can be discarded: the encoder is recording.
    pub open spec fn can_discard(self) -> bool {
        self.recording
    }

    /// The state after recording has begun.
    pub open spec fn begun(self, label: Option<Seq<char>>) -> EncoderView {
        EncoderView { recording: true, label, ..self.closed() }
    }

    /// The state after recording has ended with a command buffer.
    pub open spec fn ended(self) -> EncoderView {
        EncoderView { live: self.live + 1, ..self.closed() }
    }

    /// The same state with one more command at the end of the list.
    pub open spec fn record(self, command: Command) -> EncoderView {
        EncoderView { commands: self.commands.push(command), ..self }
    }

    /// Whether the bind group at an index can be relied on: it is set, and
    /// so is every group below it, all of them with the same pipeline layout.
    pub open spec fn bind_group_valid(self, index: int) -> bool {
        &&& 0 <= index < self.bind_groups.len()
        &&& self.bind_groups[index] is Some
        &&& forall|j: int|
            0 <= j < index ==> #[trigger] slot_layout(self.bind_groups[j]) == slot_layout(
                self.bind_groups[index],
            )
    }

    /// The state after a bind group is set at an index.
    pub open spec fn with_bind_group(self, index: int, bound: BoundGroup) -> EncoderView {
        EncoderView { bind_groups: self.bind_groups.update(index, Some(bound)), ..self }
    }
}

/// A list of commands that an encoder has closed. It cannot be changed. It
/// lives in a slot of the encoder's pool until the encoder takes it back.
#[derive(Debug)]
pub struct CommandBuffer {
    encoder: RawHandle,
    slot: usize,
    label: Option<String>,
    commands: Vec<Command>,
    surface_writes: Vec<Texture>,
}

/// What a command buffer holds.
pub struct CommandBufferView {
    /// The encoder that recorded it.
    pub encoder: RawHandle,
    /// Its slot in the pool of that encoder.
    pub slot: nat,
    pub label: Option<Seq<char>>,
    pub commands: Seq<Command>,
    /// The textures of surfaces that its commands write to.
    pub surface_writes: Set<Texture>,
}

impl View for CommandBuffer {
    type V = CommandBufferView;

    closed spec fn view(&self) -> CommandBufferView {
        CommandBufferView {
            encoder: self.encoder,
            slot: self.slot as nat,
            label: kept_label_text(self.label),
            commands: self.commands@,
            surface_writes: self.surface_writes@.to_set(),
        }
    }
}

impl CommandBuffer {
    /// The encoder that recorded the commands.
    pub fn encoder(&self) -> (r: RawHandle)
        ensures
            r == self@.encoder,
    {
        self.encoder
    }

    /// The slot of the command buffer in the pool of its encoder.
    pub fn slot(&self) -> (r: usize)
        ensures
            r == self@.slot,
    {
        self.slot
    }

    /// The label that was given when recording began.
    pub fn label(&self) -> (r: Option<&String>)
        ensures
            r is Some == self@.label is Some,
            r matches Some(text) ==> self@.label == Some(text@),
    {
        self.label.as_ref()
    }

    /// The commands, in the order in which they were recorded.
    pub fn commands(&self) -> (r: &Vec<Command>)
        ensures
            r@ == self@.commands,
    {
        &self.commands
    }

    /// Whether a command of the buffer writes to the texture of a surface.
    pub fn writes_surface_texture(&self, texture: &Texture) -> (r: bool)
        ensures
            r == self@.surface_writes.contains(*texture),
    {
        let mut i: usize = 0;
        while i < self.surface_writes.len()
            invariant
                i <= self.surface_writes@.len(),
                forall|j: int| 0 <= j < i ==> self.surface_writes@[j] != *texture,
            decreases self.surface_writes@.len() - i,
        {
            if self.surface_writes[i] == *texture {
                return true;
            }
            i += 1;
        }
        false
    }

    /// The textures of surfaces that the commands write to. A texture may
    /// come more than once.
    pub fn surface_writes(&self) -> (r: &Vec<Texture>)
        ensures
            r@.to_set() == self@.surface_writes,
    {
        &self.surface_writes
    }
}

/// Whether the command buffers are exactly those of an encoder that has so
/// many of them out: each comes from the encoder, and together they hold every
/// slot in use, each slot once.
pub open spec fn holds_every_slot(
    encoder: RawHandle,
    live: nat,
    command_buffers: Seq<CommandBuffer>,
) -> bool {
    &&& command_buffers.len() == live
    &&& forall|i: int|
        0 <= i < command_buffers.len() ==> (#[trigger] command_buffers[i])@.encoder == encoder
            && command_buffers[i]@.slot < live
    &&& forall|i: int, j: int|
        0 <= i < j < command_buffers.len() ==> (#[trigger] command_buffers[i])@.slot != (
        #[trigger] command_buffers[j])@.slot
}

/// A recording context, and the pool that its command buffers live in.
#[derive(Debug)]
pub struct CommandEncoder {
    handle: RawHandle,
    recording: bool,
    pass: Pass,
    label: Option<String>,
    commands: Vec<Command>,
    live: usize,
    surface_writes: Vec<Texture>,
    render_pipeline: Option<RenderPipeline>,
    compute_pipeline: Option<ComputePipeline>,
    bind_groups: [Option<BoundGroup>; MAX_BIND_GROUPS],
    vertex_buffers: [Option<BufferBinding>; MAX_VERTEX_BUFFERS],
    index_buffer: Option<BoundIndexBuffer>,
    occlusion_query_set: Option<QuerySet>,
}

impl View for CommandEncoder {
    type V = EncoderView;

    closed spec fn view(&self) -> EncoderView {
        EncoderView {
            recording: self.recording,
            pass: self.pass,
            label: kept_label_text(self.label),
            commands: self.commands@,
            live: self.live as nat,
            surface_writes: self.surface_writes@.to_set(),
            render_pipeline: self.render_pipeline,
            compute_pipeline: self.compute_pipeline,
            bind_groups: self.bind_groups@,
            vertex_buffers: self.vertex_buffers@,
            index_buffer: self.index_buffer,
            occlusion_query_set: self.occlusion_query_set,
        }
    }
}

fn keep_label(label: Label) -> (r: Option<String>)
    ensures
        kept_label_text(r) == label_text(label),
{
    match label {
        Some(text) => Some(text.to_owned()),
        None => None,
    }
}

impl CommandEncoder {
    /// The handle of the encoder: the device that made it, and its slot in
    /// that device's table of encoders.
    pub closed spec fn spec_handle(&self) -> RawHandle {
        self.handle
    }

    /// The command buffer that ending the recording hands out: everything
    /// recorded since the beginning, in the next free slot of the pool.
    pub open spec fn closed_buffer(&self) -> CommandBufferView {
        CommandBufferView {
            encoder: self.spec_handle(),
            slot: self@.live,
            label: self@.label,
            commands: self@.commands,
            surface_writes: self@.surface_writes,
        }
    }

    /// Whether the command buffers are exactly those that the encoder has
    /// handed out and not taken back: see [`holds_every_slot`].
    pub open spec fn owns_exactly(&self, command_buffers: Seq<CommandBuffer>) -> bool {
        holds_every_slot(self.spec_handle(), self@.live, command_buffers)
    }

    /// A closed encoder with no command buffer out.
    pub(crate) fn new(handle: RawHandle) -> (r: CommandEncoder)
        ensures
            r@ == EncoderView::fresh(),
            r.spec_handle() == handle,
    {
        let r = CommandEncoder {
            handle,
            recording: false,
            pass: Pass::Outside,
            label: None,
            commands: Vec::new(),
            live: 0,
            surface_writes: Vec::new(),
            render_pipeline: None,
            compute_pipeline: None,
            bind_groups: [None; MAX_BIND_GROUPS],
            vertex_buffers: [None; MAX_VERTEX_BUFFERS],
            index_buffer: None,
            occlusion_query_set: None,
        };
        assert(r.surface_writes@.to_set() == Set::<Texture>::empty());
        assert(r.bind_groups@ == Seq::new(MAX_BIND_GROUPS as nat, |i: int| None::<BoundGroup>));
        assert(r.vertex_buffers@ == Seq::new(
            MAX_VERTEX_BUFFERS as nat,
            |i: int| None::<BufferBinding>,
        ));
        r
    }

    /// The handle of the encoder.
    #[verifier::when_used_as_spec(spec_handle)]
    pub fn handle(&self) -> (r: RawHandle)
        ensures
            r == self.spec_handle(),
    {
        self.handle
    }

    /// Whether the encoder is recording.
    pub fn is_recording(&self) -> (r: bool)
        ensures
            r == self@.recording,
    {
        self.recording
    }

    /// Whether the encoder is closed.
    pub fn is_closed(&self) -> (r: bool)
        ensures
            r == !self@.recording,
    {
        !self.recording
    }

    /// Where the encoder stands with respect to passes.
    pub fn pass(&self) -> (r: Pass)
        ensures
            r == self@.pass,
            self@.wf(),
    {
        self.pass
    }

    /// The render pipeline that is set, if any.
    pub fn render_pipeline(&self) -> (r: Option<RenderPipeline>)
        ensures
            r == self@.render_pipeline,
    {
        self.render_pipeline
    }

    /// The compute pipeline that is set, if any.
    pub fn compute_pipeline(&self) -> (r: Option<ComputePipeline>)
        ensures
            r == self@.compute_pipeline,
    {
        self.compute_pipeline
    }

    /// The index buffer that is bound, if any.
    pub fn index_buffer(&self) -> (r: Option<BoundIndexBuffer>)
        ensures
            r == self@.index_buffer,
    {
        self.index_buffer
    }

    /// The vertex buffer that is bound at an index, if any.
    pub fn vertex_buffer(&self, index: u32) -> (r: Option<BufferBinding>)
        ensures
            index < MAX_VERTEX_BUFFERS ==> r == self@.vertex_buffers[index as int],
            index >= MAX_VERTEX_BUFFERS ==> r is None,
    {
        if (index as usize) < MAX_VERTEX_BUFFERS {
            self.vertex_buffers[index as usize]
        } else {
            None
        }
    }

    /// The bind group that is set at an index, if any, with the pipeline
    /// layout that it was set with.
    pub fn bind_group(&self, index: u32) -> (r: Option<BoundGroup>)
        ensures
            index < MAX_BIND_GROUPS ==> r == self@.bind_groups[index as int],
            index >= MAX_BIND_GROUPS ==> r is None,
    {
        if (index as usize) < MAX_BIND_GROUPS {
            self.bind_groups[index as usize]
        } else {
            None
        }
    }

    /// The number of command buffers that the encoder has handed out and not
    /// taken back.
    pub fn live_command_buffers(&self) -> (r: usize)
        ensures
            r == self@.live,
    {
        self.live
    }

    /// The number of commands recorded since recording began.
    pub fn recorded_commands(&self) -> (r: usize)
        ensures
            r == self@.commands.len(),
    {
        self.commands.len()
    }

    fn unbind(&mut self)
        ensures
            final(self)@ == old(self)@.unbound(),
            final(self).spec_handle() == old(self).spec_handle(),
    {
        self.render_pipeline = None;
        self.compute_pipeline = None;
        self.bind_groups = [None; MAX_BIND_GROUPS];
        self.vertex_buffers = [None; MAX_VERTEX_BUFFERS];
        self.index_buffer = None;
        self.occlusion_query_set = None;
        assert(self.bind_groups@ == Seq::new(MAX_BIND_GROUPS as nat, |i: int| None::<BoundGroup>));
        assert(self.vertex_buffers@ == Seq::new(
            MAX_VERTEX_BUFFERS as nat,
            |i: int| None::<BufferBinding>,
        ));
    }

    fn close(&mut self)
        ensures
            final(self)@ == old(self)@.closed(),
            final(self).spec_handle() == old(self).spec_handle(),
    {
        self.render_pipeline = None;
        self.compute_pipeline = None;
        self.bind_groups = [None; MAX_BIND_GROUPS];
        self.vertex_buffers = [None; MAX_VERTEX_BUFFERS];
        self.index_buffer = None;
        self.occlusion_query_set = None;
        assert(self.bind_groups@ == Seq::new(MAX_BIND_GROUPS as nat, |i: int| None::<BoundGroup>));
        assert(self.vertex_buffers@ == Seq::new(
            MAX_VERTEX_BUFFERS as nat,
            |i: int| None::<BufferBinding>,
        ));
        self.recording = false;
        self.pass = Pass::Outside;
        self.label = None;
        self.commands = Vec::new();
        self.surface_writes = Vec::new();
        assert(self.surface_writes@.to_set() == Set::<Texture>::empty());
    }

    /// Begins a new list of commands. With nothing to allocate, this never
    /// fails.
    pub fn begin_encoding(&mut self, label: Label) -> (r: Result<(), DeviceError>)
        requires
            old(self)@.can_begin(),
        ensures
            r is Ok,
            final(self)@ == old(self)@.begun(label_text(label)),
            final(self).spec_handle() == old(self).spec_handle(),
    {
        self.close();
        self.label = keep_label(label);
        self.recording = true;
        Ok(())
    }

    /// Drops the commands recorded so far and closes the encoder. After an
    /// error while recording this is the only thing left to do with the
    /// encoder. It asks for a recording encoder, so it cannot be called twice
    /// in a row.
    pub fn discard_encoding(&mut self)
        requires
            old(self)@.can_discard(),
        ensures
            final(self)@ == old(self)@.closed(),
            final(self).spec_handle() == old(self).spec_handle(),
    {
        self.close();
    }

    /// Closes the encoder and hands out the commands recorded since
    /// `begin_encoding` as a command buffer, in the next free slot of the
    /// pool. It fails, and leaves the encoder as it is, only when the pool has
    /// no slot left to count.
    pub fn end_encoding(&mut self) -> (r: Result<CommandBuffer, DeviceError>)
        requires
            old(self)@.can_end(),
        ensures
            final(self).spec_handle() == old(self).spec_handle(),
            old(self)@.live < usize::MAX ==> (r matches Ok(buffer) && buffer@
                == old(self).closed_buffer()) && final(self)@ == old(self)@.ended(),
            old(self)@.live >= usize::MAX ==> r == Err::<CommandBuffer, DeviceError>(
                DeviceError::OutOfMemory,
            ) && final(self)@ == old(self)@,
    {
        if self.live == usize::MAX {
            return Err(DeviceError::OutOfMemory);
        }
        let mut commands: Vec<Command> = Vec::new();
        core::mem::swap(&mut self.commands, &mut commands);
        let mut surface_writes: Vec<Texture> = Vec::new();
        core::mem::swap(&mut self.surface_writes, &mut surface_writes);
        let mut label: Option<String> = None;
        core::mem::swap(&mut self.label, &mut label);
        let buffer = CommandBuffer {
            encoder: self.handle,
            slot: self.live,
            label,
            commands,
            surface_writes,
        };
        self.live = self.live + 1;
        self.close();
        Ok(buffer)
    }

    /// Whether the command buffers are exactly those that the encoder has
    /// handed out and not taken back.
    pub fn owns_all(&self, command_buffers: &Vec<CommandBuffer>) -> (r: bool)
        ensures
            r == self.owns_exactly(command_buffers@),
    {
        if command_buffers.len() != self.live {
            return false;
        }
        let mut i: usize = 0;
        while i < command_buffers.len()
            invariant
                i <= command_buffers@.len(),
                command_buffers@.len() == self@.live,
                forall|k: int|
                    0 <= k < i ==> (#[trigger] command_buffers@[k])@.encoder == self.spec_handle()
                        && command_buffers@[k]@.slot < self@.live,
                forall|a: int, b: int|
                    0 <= a < b < i ==> (#[trigger] command_buffers@[a])@.slot
                        != (#[trigger] command_buffers@[b])@.slot,
            decreases command_buffers@.len() - i,
        {
            let buffer = &command_buffers[i];
            if !(buffer.encoder == self.handle && buffer.slot < self.live) {
                return false;
            }
            let mut j: usize = 0;
            while j < i
                invariant
                    j <= i,
                    i < command_buffers@.len(),
                    *buffer == command_buffers@[i as int],
                    forall|a: int|
                        0 <= a < j ==> (#[trigger] command_buffers@[a])@.slot != buffer@.slot,
                decreases i - j,
            {
                if command_buffers[j].slot == buffer.slot {
                    return false;
                }
                j += 1;
            }
            i += 1;
        }
        true
    }

    /// Takes back every command buffer and frees the pool. The encoder is
    /// then as it was when it was made: closed, with every slot free, so that
    /// recording can begin again and the next command buffer gets the first
    /// slot. The work of a command buffer that was submitted is done by now;
    /// the queue tells whether it is.
    pub fn reset_all(&mut self, command_buffers: Vec<CommandBuffer>)
        requires
            old(self)@.can_begin(),
            old(self).owns_exactly(command_buffers@),
        ensures
            final(self)@ == EncoderView::fresh(),
            final(self).spec_handle() == old(self).spec_handle(),
    {
        self.close();
        self.live = 0;
    }

    fn push(&mut self, command: Command)
        ensures
            final(self)@ == old(self)@.record(command),
            final(self).spec_handle() == old(self).spec_handle(),
    {
        self.commands.push(command);
    }

    fn note_surface_write(&mut self, texture: Texture)
        ensures
            final(self)@ == (EncoderView {
                surface_writes: old(self)@.surface_writes.union(surface_texture(texture)),
                ..old(self)@
            }),
            final(self).spec_handle() == old(self).spec_handle(),
    {
        if texture.surface.is_some() {
            proof {
                self.surface_writes@.lemma_push_to_set_commute(texture);
                assert(self.surface_writes@.to_set().insert(texture)
                    == self.surface_writes@.to_set().union(surface_texture(texture)));
            }
            self.surface_writes.push(texture);
        } else {
            assert(self.surface_writes@.to_set().union(surface_texture(texture))
                == self.surface_writes@.to_set());
        }
    }

    /// Copies regions from one texture to another. Each region covers one
    /// array layer; its extent is in whole blocks. The destination is in the
    /// usage `COPY_DST`.
    pub fn copy_texture_to_texture(
        &mut self,
        src: &Texture,
        src_usage: TextureUses,
        dst: &Texture,
        regions: Vec<TextureCopy>,
    )
        requires
            old(self)@.recording,
        ensures
            final(self)@ == (EncoderView {
                surface_writes: old(self)@.surface_writes.union(surface_texture(*dst)),
                ..old(self)@.record(
                    Command::CopyTextureToTexture { src: *src, src_usage, dst: *dst, regions },
                )
            }),
            final(self).spec_handle() == old(self).spec_handle(),
    {
        self.push(Command::CopyTextureToTexture { src: *src, src_usage, dst: *dst, regions });
        self.note_surface_write(*dst);
    }

    /// Copies regions from a buffer to a texture. Each region covers one
    /// array layer; its extent is in whole blocks. The destination is in the
    /// usage `COPY_DST`.
    pub fn copy_buffer_to_texture(
        &mut self,
        src: &Buffer,
        dst: &Texture,
        regions: Vec<BufferTextureCopy>,
    )
        requires
            old(self)@.recording,
        ensures
            final(self)@ == (EncoderView {
                surface_writes: old(self)@.surface_writes.union(surface_texture(*dst)),
                ..old(self)@.record(Command::CopyBufferToTexture { src: *src, dst: *dst, regions })
            }),
            final(self).spec_handle() == old(self).spec_handle(),
    {
        self.push(Command::CopyBufferToTexture { src: *src, dst: *dst, regions });
        self.note_surface_write(*dst);
    }

    /// Sets the bind group at an index. The layout is the one that every
    /// group below the index is taken to be laid out by: a group that was set
    /// with another layout can no longer be relied on, at this index or above.
    pub fn set_bind_group(
        &mut self,
        layout: &PipelineLayout,
        index: u32,
        group: &BindGroup,
        dynamic_offsets: &[DynamicOffset],
    )
        requires
            old(self)@.recording,
            index < MAX_BIND_GROUPS,
        ensures
            final(self)@.commands.len() == old(self)@.commands.len() + 1,
            final(self)@.commands.last() matches Command::SetBindGroup {
                layout: l,
                index: i,
                group: g,
                dynamic_offsets: offsets,
            } && l == *layout && i == index && g == *group && offsets@ == dynamic_offsets@,
            final(self)@ == old(self)@.record(final(self)@.commands.last()).with_bind_group(
                index as int,
                BoundGroup { layout: *layout, group: *group },
            ),
            final(self).spec_handle() == old(self).spec_handle(),
    {
        let offsets = slice_to_vec(dynamic_offsets);
        self.push(
            Command::SetBindGroup {
                layout: *layout,
                index,
                group: *group,
                dynamic_offsets: offsets,
            },
        );
        self.bind_groups[index as usize] = Some(BoundGroup { layout: *layout, group: *group });
    }

    /// Whether the bind group at an index can be relied on: it is set, and
    /// so is every group below it, all of them with the same pipeline layout.
    pub fn is_bind_group_valid(&self, index: u32) -> (r: bool)
        ensures
            r == self@.bind_group_valid(index as int),
    {
        if index as usize >= MAX_BIND_GROUPS {
            return false;
        }
        let layout = match self.bind_groups[index as usize] {
            Some(bound) => bound.layout,
            None => {
                return false;
            },
        };
        let mut j: usize = 0;
        while j < index as usize
            invariant
                j <= index,
                index < self.bind_groups@.len(),
                self.bind_groups@ == self@.bind_groups,
                slot_layout(self.bind_groups@[index as int]) == Some(layout),
                forall|k: int|
                    0 <= k < j ==> #[trigger] slot_layout(self.bind_groups@[k]) == Some(layout),
            decreases index - j,
        {
            let same = match self.bind_groups[j] {
                Some(below) => below.layout == layout,
                None => false,
            };
            if !same {
                assert(slot_layout(self.bind_groups@[j as int]) != slot_layout(
                    self.bind_groups@[index as int],
                ));
                return false;
            }
            j += 1;
        }
        true
    }

    /// Writes push constants. The data comes in words, the offset in bytes:
    /// the offset is a multiple of 4.
    pub fn set_push_constants(
        &mut self,
        layout: &PipelineLayout,
        stages: ShaderStages,
        offset_bytes: u32,
        data: &[u32],
    )
        requires
            old(self)@.recording,
            offset_bytes % 4 == 0,
        ensures
            final(self)@.commands.len() == old(self)@.commands.len() + 1,
            final(self)@.commands.last() matches Command::SetPushConstants {
                layout: l,
                stages: s,
                offset_bytes: o,
                data: words,
            } && l == *layout && s == stages && o == offset_bytes && words@ == data@,
            final(self)@ == old(self)@.record(final(self)@.commands.last()),
            final(self).spec_handle() == old(self).spec_handle(),
    {
        let words = slice_to_vec(data);
        self.push(Command::SetPushConstants { layout: *layout, stages, offset_bytes, data: words });
    }

    /// Whether a query of the set may begin or end here: an occlusion query
    /// belongs to a render pass, and to the set that the pass was begun with.
    pub open spec fn query_allowed(&self, set: QuerySet) -> bool {
        set.ty == QueryType::Occlusion ==> self@.pass == Pass::Render
            && self@.occlusion_query_set == Some(set)
    }

    /// Whether a query of the set may begin or end here.
    pub fn is_query_allowed(&self, set: &QuerySet) -> (r: bool)
        ensures
            r == self.query_allowed(*set),
    {
        match set.ty {
            QueryType::Occlusion => {
                let same = match self.occlusion_query_set {
                    Some(current) => current == *set,
                    None => false,
                };
                self.pass == Pass::Render && same
            },
            QueryType::Timestamp => true,
        }
    }

    /// Begins a query.
    pub fn begin_query(&mut self, set: &QuerySet, index: u32)
        requires
            old(self)@.recording,
            old(self).query_allowed(*set),
        ensures
            final(self)@ == old(self)@.record(Command::BeginQuery { set: *set, index }),
            final(self).spec_handle() == old(self).spec_handle(),
    {
        self.push(Command::BeginQuery { set: *set, index });
    }

    /// Ends a query.
    pub fn end_query(&mut self, set: &QuerySet, index: u32)
        requires
            old(self)@.recording,
            old(self).query_allowed(*set),
        ensures
            final(self)@ == old(self)@.record(Command::EndQuery { set: *set, index }),
            final(self).spec_handle() == old(self).spec_handle(),
    {
        self.push(Command::EndQuery { set: *set, index });
    }

    /// Begins a render pass. Everything that was bound is unbound.
    pub fn begin_render_pass(&mut self, desc: RenderPassDescriptor)
        requires
            old(self)@.recording,
            old(self)@.pass == Pass::Outside,
        ensures
            final(self)@ == (EncoderView {
                pass: Pass::Render,
                occlusion_query_set: desc.occlusion_query_set,
                surface_writes: old(self)@.surface_writes.union(desc.surface_targets()),
                ..old(self)@.record(Command::BeginRenderPass { desc }).unbound()
            }),
            final(self).spec_handle() == old(self).spec_handle(),
    {
        let mut targets = desc.collect_surface_targets();
        let occlusion_query_set = desc.occlusion_query_set;
        proof {
            lemma_concat_to_set(self.surface_writes@, targets@);
        }
        self.surface_writes.append(&mut targets);
        self.push(Command::BeginRenderPass { desc });
        self.unbind();
        self.pass = Pass::Render;
        self.occlusion_query_set = occlusion_query_set;
    }

    /// Ends the render pass.
    pub fn end_render_pass(&mut self)
        requires
            old(self)@.recording,
            old(self)@.pass == Pass::Render,
        ensures
            final(self)@ == (EncoderView {
                pass: Pass::Outside,
                occlusion_query_set: None,
                ..old(self)@.record(Command::EndRenderPass)
            }),
            final(self).spec_handle() == old(self).spec_handle(),
    {
        self.push(Command::EndRenderPass);
        self.pass = Pass::Outside;
        self.occlusion_query_set = None;
    }

    /// Sets the pipeline that draws run with.
    pub fn set_render_pipeline(&mut self, pipeline: &RenderPipeline)
        requires
            old(self)@.recording,
            old(self)@.pass == Pass::Render,
        ensures
            final(self)@ == (EncoderView {
                render_pipeline: Some(*pipeline),
                ..old(self)@.record(Command::SetRenderPipeline { pipeline: *pipeline })
            }),
            final(self).spec_handle() == old(self).spec_handle(),
    {
        self.push(Command::SetRenderPipeline { pipeline: *pipeline });
        self.render_pipeline = Some(*pipeline);
    }

    /// Binds the index buffer.
    pub fn set_index_buffer(&mut self, binding: BufferBinding, format: IndexFormat)
        requires
            old(self)@.recording,
            old(self)@.pass == Pass::Render,
        ensures
            final(self)@ == (EncoderView {
                index_buffer: Some(BoundIndexBuffer { binding, format }),
                ..old(self)@.record(Command::SetIndexBuffer { binding, format })
            }),
            final(self).spec_handle() == old(self).spec_handle(),
    {
        self.push(Command::SetIndexBuffer { binding, format });
        self.index_buffer = Some(BoundIndexBuffer { binding, format });
    }

    /// Binds a vertex buffer at an index.
    pub fn set_vertex_buffer(&mut self, index: u32, binding: BufferBinding)
        requires
            old(self)@.recording,
            old(self)@.pass == Pass::Render,
            index < MAX_VERTEX_BUFFERS,
        ensures
            final(self)@ == (EncoderView {
                vertex_buffers: old(self)@.vertex_buffers.update(index as int, Some(binding)),
                ..old(self)@.record(Command::SetVertexBuffer { index, binding })
            }),
            final(self).spec_handle() == old(self).spec_handle(),
    {
        self.push(Command::SetVertexBuffer { index, binding });
        self.vertex_buffers[index as usize] = Some(binding);
    }

    /// Begins a compute pass. Everything that was bound is unbound.
    pub fn begin_compute_pass(&mut self, desc: ComputePassDescriptor)
        requires
            old(self)@.recording,
            old(self)@.pass == Pass::Outside,
        ensures
            final(self)@ == (EncoderView {
                pass: Pass::Compute,
                ..old(self)@.record(Command::BeginComputePass { desc }).unbound()
            }),
            final(self).spec_handle() == old(self).spec_handle(),
    {
        self.push(Command::BeginComputePass { desc });
        self.unbind();
        self.pass = Pass::Compute;
    }

    /// Ends the compute pass.
    pub fn end_compute_pass(&mut self)
        requires
            old(self)@.recording,
            old(self)@.pass == Pass::Compute,
        ensures
            final(self)@ == (EncoderView {
                pass: Pass::Outside,
                ..old(self)@.record(Command::EndComputePass)
            }),
            final(self).spec_handle() == old(self).spec_handle(),
    {
        self.push(Command::EndComputePass);
        self.pass = Pass::Outside;
    }

    /// Sets the pipeline that dispatches run with.
    pub fn set_compute_pipeline(&mut self, pipeline: &ComputePipeline)
        requires
            old(self)@.recording,
            old(self)@.pass == Pass::Compute,
        ensures
            final(self)@ == (EncoderView {
                compute_pipeline: Some(*pipeline),
                ..old(self)@.record(Command::SetComputePipeline { pipeline: *pipeline })
            }),
            final(self).spec_handle() == old(self).spec_handle(),
    {
        self.push(Command::SetComputePipeline { pipeline: *pipeline });
        self.compute_pipeline = Some(*pipeline);
    }

    /// Builds or updates acceleration structures, all in one call. The builds
    /// must not get in each other's way: see [`batch_is_sound`]. The memory
    /// that each build needs is what `build_sizes` says of its entries.
    pub fn build_acceleration_structures(
        &mut self,
        descriptor_count: u32,
        descriptors: Vec<BuildAccelerationStructureDescriptor>,
    )
        requires
            old(self)@.recording,
            descriptor_count == descriptors@.len(),
            batch_is_sound(descriptors@),
        ensures
            final(self)@ == old(self)@.record(Command::BuildAccelerationStructures { descriptors }),
            final(self).spec_handle() == old(self).spec_handle(),
    {
        self.push(Command::BuildAccelerationStructures { descriptors });
    }

    /// Declares changes of usage of buffers. The encoder takes each change as it
    /// is declared: it neither derives a transition nor checks one.
    pub fn transition_buffers(&mut self, barriers: Vec<BufferBarrier>)
        requires
            old(self)@.recording,
        ensures
            final(self)@ == old(self)@.record(Command::TransitionBuffers { barriers }),
            final(self).spec_handle() == old(self).spec_handle(),
    {
        self.push(Command::TransitionBuffers { barriers });
    }

    /// Declares changes of usage of textures. The encoder takes each change as
    /// it is declared: it neither derives a transition nor checks one.
    pub fn transition_textures(&mut self, barriers: Vec<TextureBarrier>)
        requires
            old(self)@.recording,
        ensures
            final(self)@ == old(self)@.record(Command::TransitionTextures { barriers }),
            final(self).spec_handle() == old(self).spec_handle(),
    {
        self.push(Command::TransitionTextures { barriers });
    }

    /// Fills a range of a buffer with zeros.
    pub fn clear_buffer(&mut self, buffer: &Buffer, range: MemoryRange)
        requires
            old(self)@.recording,
        ensures
            final(self)@ == old(self)@.record(Command::ClearBuffer { buffer: *buffer, range }),
            final(self).spec_handle() == old(self).spec_handle(),
    {
        self.push(Command::ClearBuffer { buffer: *buffer, range });
    }

    /// Copies regions from one buffer to another.
    pub fn copy_buffer_to_buffer(&mut self, src: &Buffer, dst: &Buffer, regions: Vec<BufferCopy>)
        requires
            old(self)@.recording,
        ensures
            final(self)@ == old(self)@.record(
                Command::CopyBufferToBuffer { src: *src, dst: *dst, regions },
            ),
            final(self).spec_handle() == old(self).spec_handle(),
    {
        self.push(Command::CopyBufferToBuffer { src: *src, dst: *dst, regions });
    }

    /// Copies regions from a texture to a buffer. Each region covers one array
    /// layer; its extent is in whole blocks.
    pub fn copy_texture_to_buffer(
        &mut self,
        src: &Texture,
        src_usage: TextureUses,
        dst: &Buffer,
        regions: Vec<BufferTextureCopy>,
    )
        requires
            old(self)@.recording,
        ensures
            final(self)@ == old(self)@.record(
                Command::CopyTextureToBuffer { src: *src, src_usage, dst: *dst, regions },
            ),
            final(self).spec_handle() == old(self).spec_handle(),
    {
        self.push(Command::CopyTextureToBuffer { src: *src, src_usage, dst: *dst, regions });
    }

    /// Marks a point of the command list.
    pub fn insert_debug_marker(&mut self, label: &str)
        requires
            old(self)@.recording,
        ensures
            final(self)@.commands.len() == old(self)@.commands.len() + 1,
            final(self)@.commands.last() matches Command::InsertDebugMarker { label: text } && text@
                == label@,
            final(self)@ == old(self)@.record(final(self)@.commands.last()),
            final(self).spec_handle() == old(self).spec_handle(),
    {
        let text = label.to_owned();
        self.push(Command::InsertDebugMarker { label: text });
    }

    /// Opens a named group of commands.
    pub fn begin_debug_marker(&mut self, group_label: &str)
        requires
            old(self)@.recording,
        ensures
            final(self)@.commands.len() == old(self)@.commands.len() + 1,
            final(self)@.commands.last() matches Command::BeginDebugMarker { group_label: text }
                && text@ == group_label@,
            final(self)@ == old(self)@.record(final(self)@.commands.last()),
            final(self).spec_handle() == old(self).spec_handle(),
    {
        let text = group_label.to_owned();
        self.push(Command::BeginDebugMarker { group_label: text });
    }

    /// Closes the group of commands that was opened last.
    pub fn end_debug_marker(&mut self)
        requires
            old(self)@.recording,
        ensures
            final(self)@ == old(self)@.record(Command::EndDebugMarker),
            final(self).spec_handle() == old(self).spec_handle(),
    {
        self.push(Command::EndDebugMarker);
    }

    /// Writes the time into a query.
    pub fn write_timestamp(&mut self, set: &QuerySet, index: u32)
        requires
            old(self)@.recording,
        ensures
            final(self)@ == old(self)@.record(Command::WriteTimestamp { set: *set, index }),
            final(self).spec_handle() == old(self).spec_handle(),
    {
        self.push(Command::WriteTimestamp { set: *set, index });
    }

    /// Resets a range of queries.
    pub fn reset_queries(&mut self, set: &QuerySet, range: core::ops::Range<u32>)
        requires
            old(self)@.recording,
        ensures
            final(self)@ == old(self)@.record(Command::ResetQueries { set: *set, range }),
            final(self).spec_handle() == old(self).spec_handle(),
    {
        self.push(Command::ResetQueries { set: *set, range });
    }

    /// Copies the results of a range of queries into a buffer, one every `stride`
    /// bytes from `offset` on. The stride is not zero.
    pub fn copy_query_results(
        &mut self,
        set: &QuerySet,
        range: core::ops::Range<u32>,
        buffer: &Buffer,
        offset: BufferAddress,
        stride: BufferAddress,
    )
        requires
            old(self)@.recording,
        ensures
            final(self)@ == old(self)@.record(
                Command::CopyQueryResults { set: *set, range, buffer: *buffer, offset, stride },
            ),
            final(self).spec_handle() == old(self).spec_handle(),
    {
        self.push(Command::CopyQueryResults { set: *set, range, buffer: *buffer, offset, stride });
    }

    /// Sets the viewport. The rectangle and the depth range hold the bits of
    /// 32-bit floating-point numbers.
    pub fn set_viewport(&mut self, rect: &Rect<u32>, depth_range: core::ops::Range<u32>)
        requires
            old(self)@.recording,
            old(self)@.pass == Pass::Render,
        ensures
            final(self)@ == old(self)@.record(Command::SetViewport { rect: *rect, depth_range }),
            final(self).spec_handle() == old(self).spec_handle(),
    {
        self.push(Command::SetViewport { rect: *rect, depth_range });
    }

    /// Sets the scissor rectangle.
    pub fn set_scissor_rect(&mut self, rect: &Rect<u32>)
        requires
            old(self)@.recording,
            old(self)@.pass == Pass::Render,
        ensures
            final(self)@ == old(self)@.record(Command::SetScissorRect { rect: *rect }),
            final(self).spec_handle() == old(self).spec_handle(),
    {
        self.push(Command::SetScissorRect { rect: *rect });
    }

    /// Sets the reference value of the stencil test.
    pub fn set_stencil_reference(&mut self, value: u32)
        requires
            old(self)@.recording,
            old(self)@.pass == Pass::Render,
        ensures
            final(self)@ == old(self)@.record(Command::SetStencilReference { value }),
            final(self).spec_handle() == old(self).spec_handle(),
    {
        self.push(Command::SetStencilReference { value });
    }

    /// Sets the blend constants. The color holds the bits of four 32-bit
    /// floating-point numbers.
    pub fn set_blend_constants(&mut self, color: &[u32; 4])
        requires
            old(self)@.recording,
            old(self)@.pass == Pass::Render,
        ensures
            final(self)@ == old(self)@.record(Command::SetBlendConstants { color: *color }),
            final(self).spec_handle() == old(self).spec_handle(),
    {
        self.push(Command::SetBlendConstants { color: *color });
    }

    /// Draws vertices.
    pub fn draw(
        &mut self,
        first_vertex: u32,
        vertex_count: u32,
        first_instance: u32,
        instance_count: u32,
    )
        requires
            old(self)@.recording,
            old(self)@.pass == Pass::Render,
        ensures
            final(self)@ == old(self)@.record(
                Command::Draw { first_vertex, vertex_count, first_instance, instance_count },
            ),
            final(self).spec_handle() == old(self).spec_handle(),
    {
        self.push(Command::Draw { first_vertex, vertex_count, first_instance, instance_count });
    }

    /// Draws vertices that the bound index buffer picks.
    pub fn draw_indexed(
        &mut self,
        first_index: u32,
        index_count: u32,
        base_vertex: i32,
        first_instance: u32,
        instance_count: u32,
    )
        requires
            old(self)@.recording,
            old(self)@.pass == Pass::Render,
        ensures
            final(self)@ == old(self)@.record(
                Command::DrawIndexed {
                    first_index,
                    index_count,
                    base_vertex,
                    first_instance,
                    instance_count,
                },
            ),
            final(self).spec_handle() == old(self).spec_handle(),
    {
        self.push(
            Command::DrawIndexed {
                first_index,
                index_count,
                base_vertex,
                first_instance,
                instance_count,
            },
        );
    }

    /// Draws with arguments read from a buffer.
    pub fn draw_indirect(&mut self, buffer: &Buffer, offset: BufferAddress, draw_count: u32)
        requires
            old(self)@.recording,
            old(self)@.pass == Pass::Render,
        ensures
            final(self)@ == old(self)@.record(
                Command::DrawIndirect { buffer: *buffer, offset, draw_count },
            ),
            final(self).spec_handle() == old(self).spec_handle(),
    {
        self.push(Command::DrawIndirect { buffer: *buffer, offset, draw_count });
    }

    /// Draws indexed with arguments read from a buffer.
    pub fn draw_indexed_indirect(&mut self, buffer: &Buffer, offset: BufferAddress, draw_count: u32)
        requires
            old(self)@.recording,
            old(self)@.pass == Pass::Render,
        ensures
            final(self)@ == old(self)@.record(
                Command::DrawIndexedIndirect { buffer: *buffer, offset, draw_count },
            ),
            final(self).spec_handle() == old(self).spec_handle(),
    {
        self.push(Command::DrawIndexedIndirect { buffer: *buffer, offset, draw_count });
    }

    /// Draws with arguments read from a buffer, as many times as a second
    /// buffer says, `max_count` at most.
    pub fn draw_indirect_count(
        &mut self,
        buffer: &Buffer,
        offset: BufferAddress,
        count_buffer: &Buffer,
        count_offset: BufferAddress,
        max_count: u32,
    )
        requires
            old(self)@.recording,
            old(self)@.pass == Pass::Render,
        ensures
            final(self)@ == old(self)@.record(
                Command::DrawIndirectCount {
                    buffer: *buffer,
                    offset,
                    count_buffer: *count_buffer,
                    count_offset,
                    max_count,
                },
            ),
            final(self).spec_handle() == old(self).spec_handle(),
    {
        self.push(
            Command::DrawIndirectCount {
                buffer: *buffer,
                offset,
                count_buffer: *count_buffer,
                count_offset,
                max_count,
            },
        );
    }

    /// Draws indexed with arguments read from a buffer, as many times as a
    /// second buffer says, `max_count` at most.
    pub fn draw_indexed_indirect_count(
        &mut self,
        buffer: &Buffer,
        offset: BufferAddress,
        count_buffer: &Buffer,
        count_offset: BufferAddress,
        max_count: u32,
    )
        requires
            old(self)@.recording,
            old(self)@.pass == Pass::Render,
        ensures
            final(self)@ == old(self)@.record(
                Command::DrawIndexedIndirectCount {
                    buffer: *buffer,
                    offset,
                    count_buffer: *count_buffer,
                    count_offset,
                    max_count,
                },
            ),
            final(self).spec_handle() == old(self).spec_handle(),
    {
        self.push(
            Command::DrawIndexedIndirectCount {
                buffer: *buffer,
                offset,
                count_buffer: *count_buffer,
                count_offset,
                max_count,
            },
        );
    }

    /// Runs the compute pipeline on a grid of work groups.
    pub fn dispatch(&mut self, count: [u32; 3])
        requires
            old(self)@.recording,
            old(self)@.pass == Pass::Compute,
        ensures
            final(self)@ == old(self)@.record(Command::Dispatch { count }),
            final(self).spec_handle() == old(self).spec_handle(),
    {
        self.push(Command::Dispatch { count });
    }

    /// Runs the compute pipeline on a grid whose size is read from a buffer.
    pub fn dispatch_indirect(&mut self, buffer: &Buffer, offset: BufferAddress)
        requires
            old(self)@.recording,
            old(self)@.pass == Pass::Compute,
        ensures
            final(self)@ == old(self)@.record(
                Command::DispatchIndirect { buffer: *buffer, offset },
            ),
            final(self).spec_handle() == old(self).spec_handle(),
    {
        self.push(Command::DispatchIndirect { buffer: *buffer, offset });
    }

    /// Declares a change of usage of the acceleration structures.
    pub fn place_acceleration_structure_barrier(&mut self, barrier: AccelerationStructureBarrier)
        requires
            old(self)@.recording,
        ensures
            final(self)@ == old(self)@.record(
                Command::PlaceAccelerationStructureBarrier { barrier },
            ),
            final(self).spec_handle() == old(self).spec_handle(),
    {
        self.push(Command::PlaceAccelerationStructureBarrier { barrier });
    }
}

/// Recording cannot begin twice in a row: once it has begun, the encoder has
/// to end or discard the recording before it can begin another.
pub proof fn lemma_begin_twice_refused(state: EncoderView, label: Option<Seq<char>>)
    requires
        state.can_begin(),
    ensures
        !state.begun(label).can_begin(),
        state.begun(label).can_end(),
        state.begun(label).can_discard(),
        state.begun(label).ended().can_begin(),
        state.begun(label).closed().can_begin(),
{
}

/// A recording can be discarded once: the encoder is closed afterwards, and
/// there is nothing left to discard.
pub proof fn lemma_discard_twice_refused(state: EncoderView)
    requires
        state.can_discard(),
    ensures
        !state.closed().can_discard(),
{
}

/// An encoder that has taken every command buffer back is as it was when it
/// was made: it holds no command buffer, recording can begin, and the next
/// command buffer gets the first slot again. Recording, ending and taking
/// back can go round any number of times and always come back to this state.
pub proof fn lemma_reset_restores(label: Option<Seq<char>>)
    ensures
        EncoderView::fresh().live == 0,
        EncoderView::fresh().can_begin(),
        EncoderView::fresh().begun(label).can_end(),
        EncoderView::fresh().begun(label).ended().live == 1,
        EncoderView::fresh().begun(label).ended().can_begin(),
        EncoderView::fresh().wf(),
{
}

/// Whoever keeps every command buffer can always give them all back: the
/// buffers that an encoder has out, together with the one that it hands out
/// next, are again exactly those that it has out, in whatever place the new
/// one is put among them. With none out, none is to be given back.
pub proof fn lemma_kept_buffers_are_owned(
    encoder: RawHandle,
    live: nat,
    kept: Seq<CommandBuffer>,
    next: CommandBuffer,
    place: int,
)
    requires
        holds_every_slot(encoder, live, kept),
        next@.encoder == encoder,
        next@.slot == live,
        0 <= place <= kept.len(),
    ensures
        holds_every_slot(encoder, live + 1, kept.insert(place, next)),
        holds_every_slot(encoder, 0, Seq::<CommandBuffer>::empty()),
{
    let all = kept.insert(place, next);
    assert forall|i: int| 0 <= i < all.len() implies (#[trigger] all[i])@.encoder == encoder
        && all[i]@.slot < live + 1 by {
        if i < place {
            assert(all[i] == kept[i]);
        } else if i > place {
            assert(all[i] == kept[i - 1]);
        }
    }
    assert forall|i: int, j: int| 0 <= i < j < all.len() implies (#[trigger] all[i])@.slot != (
    #[trigger] all[j])@.slot by {
        let a = if i < place {
            i
        } else {
            i - 1
        };
        let b = if j < place {
            j
        } else {
            j - 1
        };
        if i != place && j != place {
            assert(all[i] == kept[a]);
            assert(all[j] == kept[b]);
            assert(kept[a]@.slot != kept[b]@.slot);
        } else if i == place {
            assert(all[j] == kept[b]);
        } else {
            assert(all[i] == kept[a]);
        }
    }
}

/// Entering a pass leaves no bind group that can be relied on.
pub proof fn lemma_unbound_has_no_valid_group(state: EncoderView, index: int)
    ensures
        !state.unbound().bind_group_valid(index),
        state.unbound().wf(),
{
}

/// Setting a bind group with another pipeline layout at a lower index takes
/// away every group above it that was set with a different layout; a group
/// that was set with the same layout stays as it was.
pub proof fn lemma_rebinding_below(state: EncoderView, lower: int, bound: BoundGroup, index: int)
    requires
        state.wf(),
        0 <= lower < index < MAX_BIND_GROUPS,
    ensures
        slot_layout(state.bind_groups[index]) != Some(bound.layout) ==> !state.with_bind_group(
            lower,
            bound,
        ).bind_group_valid(index),
        state.bind_group_valid(index) && slot_layout(state.bind_groups[index]) == Some(bound.layout)
            ==> state.with_bind_group(lower, bound).bind_group_valid(index),
{
    let after = state.with_bind_group(lower, bound);
    assert(slot_layout(after.bind_groups[lower]) == Some(bound.layout));
    if state.bind_group_valid(index) && slot_layout(state.bind_groups[index]) == Some(
        bound.layout,
    ) {
        assert forall|j: int| 0 <= j < index implies #[trigger] slot_layout(after.bind_groups[j])
            == slot_layout(after.bind_groups[index]) by {
            if j != lower {
                assert(slot_layout(state.bind_groups[j]) == slot_layout(state.bind_groups[index]));
            }
        }
    }
}

/// Setting a bind group makes it one that can be relied on exactly when
/// every group below it is set with the same pipeline layout.
pub proof fn lemma_set_group_valid(state: EncoderView, index: int, bound: BoundGroup)
    requires
        state.wf(),
        0 <= index < MAX_BIND_GROUPS,
    ensures
        state.with_bind_group(index, bound).bind_group_valid(index) <==> forall|j: int|
            0 <= j < index ==> #[trigger] slot_layout(state.bind_groups[j]) == Some(bound.layout),
{
    let after = state.with_bind_group(index, bound);
    if after.bind_group_valid(index) {
        assert forall|j: int| 0 <= j < index implies #[trigger] slot_layout(state.bind_groups[j])
            == Some(bound.layout) by {
            assert(slot_layout(after.bind_groups[j]) == slot_layout(after.bind_groups[index]));
        }
    }
    if forall|j: int|
        0 <= j < index ==> #[trigger] slot_layout(state.bind_groups[j]) == Some(bound.layout) {
        assert forall|j: int| 0 <= j < index implies #[trigger] slot_layout(after.bind_groups[j])
            == slot_layout(after.bind_groups[index]) by {
            assert(slot_layout(state.bind_groups[j]) == Some(bound.layout));
        }
    }
}

/// The texture, if a surface handed it out; nothing otherwise.
pub open spec fn surface_texture(texture: Texture) -> Set<Texture> {
    if texture.surface is Some {
        set![texture]
    } else {
        Set::empty()
    }
}

proof fn lemma_concat_to_set<T>(a: Seq<T>, b: Seq<T>)
    ensures
        (a + b).to_set() == a.to_set().union(b.to_set()),
{
    assert forall|x: T| (a + b).to_set().contains(x) <==> a.to_set().union(b.to_set()).contains(
        x,
    ) by {
        if (a + b).contains(x) {
            let i = choose|i: int| 0 <= i < (a + b).len() && (a + b)[i] == x;
            if i < a.len() {
                assert(a[i] == x);
            } else {
                assert(b[i - a.len()] == x);
            }
        }
        if a.contains(x) {
            let i = choose|i: int| 0 <= i < a.len() && a[i] == x;
            assert((a + b)[i] == x);
        }
        if b.contains(x) {
            let i = choose|i: int| 0 <= i < b.len() && b[i] == x;
            assert((a + b)[a.len() + i] == x);
        }
    }
}

} // verus!
