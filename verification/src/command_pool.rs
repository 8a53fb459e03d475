//! Command pools and command buffers.
//!
//! A command buffer here is the list of commands recorded into it, kept in
//! order, together with where it stands between `begin` and `end`. Whoever
//! drives the device plays the list back.

use vstd::prelude::*;
use crate::buffer::Buffer;
use crate::pipeline::{Pipeline, PipelineBindPoint};
use crate::surface::Extent2D;

verus! {

/// How the commands of a render pass are provided.
#[derive(Clone, Copy, Debug, PartialEq, Eq, Structural)]
pub enum SubpassContents {
    Inline,
    SecondaryCommandBuffers,
}

/// Where a command buffer stands.
#[derive(Clone, Copy, Debug, PartialEq, Eq, Structural)]
pub enum RecordingState {
    /// Nothing recorded, not begun.
    Initial,
    /// Begun, outside any render pass.
    Recording,
    /// Begun, inside a render pass.
    InRenderPass,
    /// Ended: ready to be submitted, as often as wanted.
    Executable,
}

/// How a command buffer is going to be used.
#[derive(Clone, Copy, Debug, PartialEq, Eq, Structural)]
pub struct CommandBufferBeginInfo {
    pub flags: u32,
}

/// What a render pass instance works on.
#[derive(Clone, Copy, Debug, PartialEq, Eq, Structural)]
pub struct RenderPassBeginInfo {
    pub render_pass: u64,
    pub framebuffer: u64,
    pub render_area: Extent2D,
}

/// A range to copy from one buffer to another.
#[derive(Clone, Copy, Debug, PartialEq, Eq, Structural)]
pub struct BufferCopy {
    pub src_offset: u64,
    pub dst_offset: u64,
    pub size: u64,
}

/// A recorded command.
#[derive(Clone, Debug)]
pub enum Command {
    Draw { vertex_count: u32, instance_count: u32, first_vertex: u32, first_instance: u32 },
    BindVertexBuffers { first_binding: u32, buffers: Vec<u64>, offsets: Vec<u64> },
    BindPipeline { bind_point: PipelineBindPoint, pipeline: u64 },
    CopyBuffer { src: u64, dst: u64, region: BufferCopy },
    BeginRenderPass { info: RenderPassBeginInfo, contents: SubpassContents },
    EndRenderPass,
    BindDescriptorSets {
        bind_point: PipelineBindPoint,
        layout: u64,
        first_set: u32,
        descriptor_sets: Vec<u64>,
        dynamic_offsets: Vec<u32>,
    },
}

/// A recorded command, as contracts see it.
pub enum CommandView {
    Draw { vertex_count: u32, instance_count: u32, first_vertex: u32, first_instance: u32 },
    BindVertexBuffers { first_binding: u32, buffers: Seq<u64>, offsets: Seq<u64> },
    BindPipeline { bind_point: PipelineBindPoint, pipeline: u64 },
    CopyBuffer { src: u64, dst: u64, region: BufferCopy },
    BeginRenderPass { info: RenderPassBeginInfo, contents: SubpassContents },
    EndRenderPass,
    BindDescriptorSets {
        bind_point: PipelineBindPoint,
        layout: u64,
        first_set: u32,
        descriptor_sets: Seq<u64>,
        dynamic_offsets: Seq<u32>,
    },
}

impl View for Command {
    type V = CommandView;

    open spec fn view(&self) -> CommandView {
        match *self {
            Command::Draw { vertex_count, instance_count, first_vertex, first_instance } =>
                CommandView::Draw { vertex_count, instance_count, first_vertex, first_instance },
            Command::BindVertexBuffers { first_binding, buffers, offsets } =>
                CommandView::BindVertexBuffers {
                    first_binding,
                    buffers: buffers@,
                    offsets: offsets@,
                },
            Command::BindPipeline { bind_point, pipeline } => CommandView::BindPipeline {
                bind_point,
                pipeline,
            },
            Command::CopyBuffer { src, dst, region } => CommandView::CopyBuffer { src, dst, region },
            Command::BeginRenderPass { info, contents } => CommandView::BeginRenderPass {
                info,
                contents,
            },
            Command::EndRenderPass => CommandView::EndRenderPass,
            Command::BindDescriptorSets {
                bind_point,
                layout,
                first_set,
                descriptor_sets,
                dynamic_offsets,
            } => CommandView::BindDescriptorSets {
                bind_point,
                layout,
                first_set,
                descriptor_sets: descriptor_sets@,
                dynamic_offsets: dynamic_offsets@,
            },
        }
    }
}

/// Whether the commands, taken in order, end inside a render pass; `None`
/// where they are out of order: a render pass begun inside another or ended
/// outside any, a draw outside a render pass, a copy inside one.
pub open spec fn scope_after(commands: Seq<CommandView>) -> Option<bool>
    decreases commands.len(),
{
    if commands.len() == 0 {
        Some(false)
    } else {
        match scope_after(commands.drop_last()) {
            None => None,
            Some(inside) => match commands.last() {
                CommandView::BeginRenderPass { .. } => if inside {
                    None
                } else {
                    Some(true)
                },
                CommandView::EndRenderPass => if inside {
                    Some(false)
                } else {
                    None
                },
                CommandView::Draw { .. } => if inside {
                    Some(true)
                } else {
                    None
                },
                CommandView::CopyBuffer { .. } => if inside {
                    None
                } else {
                    Some(false)
                },
                _ => Some(inside),
            },
        }
    }
}

/// A command buffer.
#[derive(Debug)]
pub struct CommandBuffer {
    handle: u64,
    command_pool: u64,
    state: RecordingState,
    usage: u32,
    commands: Vec<Command>,
}

impl CommandBuffer {
    /// The command buffer's handle.
    pub closed spec fn id(&self) -> u64 {
        self.handle
    }

    /// The pool the command buffer came from.
    pub closed spec fn pool(&self) -> u64 {
        self.command_pool
    }

    /// Where the command buffer stands.
    pub closed spec fn status(&self) -> RecordingState {
        self.state
    }

    /// The usage flags it was last begun with; 0 before the first `begin`.
    pub closed spec fn usage(&self) -> u32 {
        self.usage
    }

    /// The commands recorded since the last `begin`, in order.
    pub closed spec fn recorded(&self) -> Seq<CommandView> {
        self.commands@.map_values(|command: Command| command@)
    }

    /// Whether commands can be recorded.
    pub open spec fn recording(&self) -> bool {
        self.status() == RecordingState::Recording || self.status()
            == RecordingState::InRenderPass
    }

    /// What every command buffer keeps true: its commands are in order, and
    /// it is inside a render pass exactly when they end inside one; before
    /// the first `begin` it holds none.
    pub open spec fn well_formed(&self) -> bool {
        &&& scope_after(self.recorded()) == Some(self.status() == RecordingState::InRenderPass)
        &&& self.status() == RecordingState::Initial ==> self.recorded().len() == 0
    }

    /// Whether this is `before` with `command` recorded: one command more
    /// and nothing else changed but where it stands.
    pub open spec fn records(&self, before: &CommandBuffer, command: CommandView) -> bool {
        &&& self.id() == before.id()
        &&& self.pool() == before.pool()
        &&& self.usage() == before.usage()
        &&& self.recorded() == before.recorded().push(command)
    }

    pub fn handle(&self) -> (handle: u64)
        ensures
            handle == self.id(),
    {
        self.handle
    }

    pub fn state(&self) -> (state: RecordingState)
        ensures
            state == self.status(),
    {
        self.state
    }

    /// The usage flags the command buffer was last begun with.
    pub fn usage_flags(&self) -> (flags: u32)
        ensures
            flags == self.usage(),
    {
        self.usage
    }

    /// The commands recorded since the last `begin`, in order.
    pub fn commands(&self) -> (commands: &Vec<Command>)
        ensures
            commands@.map_values(|command: Command| command@) == self.recorded(),
    {
        &self.commands
    }

    /// Appends `command`.
    fn record(&mut self, command: Command)
        ensures
            final(self).records(old(self), command@),
            final(self).status() == old(self).status(),
    {
        self.commands.push(command);
        assert(self.commands@.map_values(|command: Command| command@) =~= old(self).commands@.map_values(|command: Command| command@).push(command@));
    }

    /// Starts recording anew: what was recorded before is dropped.
    pub fn begin(&mut self, info: &CommandBufferBeginInfo)
        requires
            !old(self).recording(),
        ensures
            final(self).id() == old(self).id(),
            final(self).pool() == old(self).pool(),
            final(self).status() == RecordingState::Recording,
            final(self).usage() == info.flags,
            final(self).recorded() == Seq::<CommandView>::empty(),
            final(self).well_formed(),
    {
        self.commands = Vec::new();
        self.usage = info.flags;
        self.state = RecordingState::Recording;
        assert(self.recorded() =~= Seq::<CommandView>::empty());
    }

    /// Ends recording.
    pub fn end(&mut self)
        requires
            old(self).well_formed(),
            old(self).status() == RecordingState::Recording,
        ensures
            final(self).id() == old(self).id(),
            final(self).pool() == old(self).pool(),
            final(self).usage() == old(self).usage(),
            final(self).recorded() == old(self).recorded(),
            final(self).status() == RecordingState::Executable,
            final(self).well_formed(),
    {
        self.state = RecordingState::Executable;
    }

    pub fn draw(&mut self, vertex_count: u32, instance_count: u32, first_vertex: u32, first_instance: u32)
        requires
            old(self).well_formed(),
            old(self).status() == RecordingState::InRenderPass,
        ensures
            final(self).records(
                old(self),
                CommandView::Draw { vertex_count, instance_count, first_vertex, first_instance },
            ),
            final(self).status() == old(self).status(),
            final(self).well_formed(),
    {
        self.record(Command::Draw { vertex_count, instance_count, first_vertex, first_instance });
        proof {
            lemma_scope_push(old(self).recorded(), self.recorded().last());
        }
    }

    /// Binds `buffers`, each at its offset, from binding 0 on.
    pub fn bind_vertex_buffers(&mut self, buffers: &[u64], offsets: &[u64])
        requires
            old(self).well_formed(),
            old(self).recording(),
            buffers@.len() == offsets@.len(),
        ensures
            final(self).records(
                old(self),
                CommandView::BindVertexBuffers {
                    first_binding: 0,
                    buffers: buffers@,
                    offsets: offsets@,
                },
            ),
            final(self).status() == old(self).status(),
            final(self).well_formed(),
    {
        self.record(
            Command::BindVertexBuffers {
                first_binding: 0,
                buffers: vstd::slice::slice_to_vec(buffers),
                offsets: vstd::slice::slice_to_vec(offsets),
            },
        );
        proof {
            lemma_scope_push(old(self).recorded(), self.recorded().last());
        }
    }

    pub fn bind_pipeline<T: Pipeline>(&mut self, pipeline: &T)
        requires
            old(self).well_formed(),
            old(self).recording(),
        ensures
            final(self).records(
                old(self),
                CommandView::BindPipeline { bind_point: pipeline.point(), pipeline: pipeline.id() },
            ),
            final(self).status() == old(self).status(),
            final(self).well_formed(),
    {
        self.record(
            Command::BindPipeline { bind_point: pipeline.bind_point(), pipeline: pipeline.handle() },
        );
        proof {
            lemma_scope_push(old(self).recorded(), self.recorded().last());
        }
    }

    /// Copies all of `src_buffer` to the start of `dst_buffer`.
    pub fn copy_buffer(&mut self, src_buffer: &Buffer, dst_buffer: &Buffer)
        requires
            old(self).well_formed(),
            old(self).status() == RecordingState::Recording,
            src_buffer.len() <= dst_buffer.len(),
        ensures
            final(self).records(
                old(self),
                CommandView::CopyBuffer {
                    src: src_buffer.id(),
                    dst: dst_buffer.id(),
                    region: BufferCopy {
                        src_offset: src_buffer.memory().region.offset as usize as u64,
                        dst_offset: dst_buffer.memory().region.offset as usize as u64,
                        size: src_buffer.len() as u64,
                    },
                },
            ),
            final(self).status() == old(self).status(),
            final(self).well_formed(),
    {
        let region = BufferCopy {
            src_offset: src_buffer.offset() as u64,
            dst_offset: dst_buffer.offset() as u64,
            size: src_buffer.size() as u64,
        };
        self.record(
            Command::CopyBuffer { src: src_buffer.handle(), dst: dst_buffer.handle(), region },
        );
        proof {
            lemma_scope_push(old(self).recorded(), self.recorded().last());
        }
    }

    pub fn begin_render_pass(&mut self, info: &RenderPassBeginInfo, contents: SubpassContents)
        requires
            old(self).well_formed(),
            old(self).status() == RecordingState::Recording,
        ensures
            final(self).records(
                old(self),
                CommandView::BeginRenderPass { info: *info, contents },
            ),
            final(self).status() == RecordingState::InRenderPass,
            final(self).well_formed(),
    {
        self.record(Command::BeginRenderPass { info: *info, contents });
        self.state = RecordingState::InRenderPass;
        proof {
            lemma_scope_push(old(self).recorded(), self.recorded().last());
        }
    }

    pub fn end_render_pass(&mut self)
        requires
            old(self).well_formed(),
            old(self).status() == RecordingState::InRenderPass,
        ensures
            final(self).records(old(self), CommandView::EndRenderPass),
            final(self).status() == RecordingState::Recording,
            final(self).well_formed(),
    {
        self.record(Command::EndRenderPass);
        self.state = RecordingState::Recording;
        proof {
            lemma_scope_push(old(self).recorded(), self.recorded().last());
        }
    }

    pub fn bind_descriptor_sets(
        &mut self,
        bind_point: PipelineBindPoint,
        layout: u64,
        first_set: u32,
        descriptor_sets: &[u64],
        dynamic_offsets: &[u32],
    )
        requires
            old(self).well_formed(),
            old(self).recording(),
        ensures
            final(self).records(
                old(self),
                CommandView::BindDescriptorSets {
                    bind_point,
                    layout,
                    first_set,
                    descriptor_sets: descriptor_sets@,
                    dynamic_offsets: dynamic_offsets@,
                },
            ),
            final(self).status() == old(self).status(),
            final(self).well_formed(),
    {
        self.record(
            Command::BindDescriptorSets {
                bind_point,
                layout,
                first_set,
                descriptor_sets: vstd::slice::slice_to_vec(descriptor_sets),
                dynamic_offsets: vstd::slice::slice_to_vec(dynamic_offsets),
            },
        );
        proof {
            lemma_scope_push(old(self).recorded(), self.recorded().last());
        }
    }
}

/// A pool that command buffers are taken from.
#[derive(Debug)]
pub struct CommandPool {
    handle: u64,
    queue_family_index: u32,
}

impl CommandPool {
    /// The pool's handle.
    pub closed spec fn id(&self) -> u64 {
        self.handle
    }

    /// The queue family whose queues take the pool's command buffers.
    pub closed spec fn family(&self) -> u32 {
        self.queue_family_index
    }

    /// Whether `command_buffer` is a fresh command buffer of this pool with
    /// handle `handle`.
    pub open spec fn fresh(&self, command_buffer: &CommandBuffer, handle: u64) -> bool {
        &&& command_buffer.id() == handle
        &&& command_buffer.pool() == self.id()
        &&& command_buffer.status() == RecordingState::Initial
        &&& command_buffer.usage() == 0
        &&& command_buffer.recorded().len() == 0
        &&& command_buffer.well_formed()
    }

    pub fn new(handle: u64, queue_family_index: u32) -> (pool: Self)
        ensures
            pool.id() == handle,
            pool.family() == queue_family_index,
    {
        Self { handle, queue_family_index }
    }

    pub fn handle(&self) -> (handle: u64)
        ensures
            handle == self.id(),
    {
        self.handle
    }

    pub fn queue_family_index(&self) -> (index: u32)
        ensures
            index == self.family(),
    {
        self.queue_family_index
    }

    /// A fresh command buffer around `command_buffer_handle`.
    pub fn construct_command_buffer(&self, command_buffer_handle: u64) -> (command_buffer:
        CommandBuffer)
        ensures
            self.fresh(&command_buffer, command_buffer_handle),
    {
        let command_buffer = CommandBuffer {
            handle: command_buffer_handle,
            command_pool: self.handle,
            state: RecordingState::Initial,
            usage: 0,
            commands: Vec::new(),
        };
        assert(command_buffer.recorded() =~= Seq::<CommandView>::empty());
        command_buffer
    }

    /// Fresh command buffers around the handles the device allocated, in
    /// their order.
    pub fn allocate_command_buffers(&self, allocated: &[u64]) -> (command_buffers:
        Vec<CommandBuffer>)
        ensures
            command_buffers@.len() == allocated@.len(),
            forall|i: int|
                0 <= i < allocated@.len() ==> self.fresh(
                    #[trigger] &command_buffers@[i],
                    allocated@[i],
                ),
    {
        let mut command_buffers: Vec<CommandBuffer> = Vec::new();
        let mut i: usize = 0;
        while i < allocated.len()
            invariant
                i <= allocated@.len(),
                command_buffers@.len() == i,
                forall|j: int|
                    0 <= j < i ==> self.fresh(#[trigger] &command_buffers@[j], allocated@[j]),
            decreases allocated@.len() - i,
        {
            command_buffers.push(self.construct_command_buffer(allocated[i]));
            i += 1;
        }
        command_buffers
    }

    /// A fresh command buffer around the first handle the device allocated.
    pub fn allocate_command_buffer(&self, allocated: &[u64]) -> (command_buffer:
        CommandBuffer)
        requires
            allocated@.len() > 0,
        ensures
            self.fresh(&command_buffer, allocated@[0]),
    {
        self.construct_command_buffer(allocated[0])
    }

    /// Takes the pool's command buffers back to before their first `begin`.
    pub fn reset(&self, command_buffers: &mut Vec<CommandBuffer>)
        ensures
            final(command_buffers)@.len() == old(command_buffers)@.len(),
            forall|i: int|
                0 <= i < old(command_buffers)@.len() ==> if old(command_buffers)@[i].pool()
                    == self.id() {
                    self.fresh(#[trigger] &final(command_buffers)@[i], old(command_buffers)@[i].id())
                } else {
                    final(command_buffers)@[i] == old(command_buffers)@[i]
                },
    {
        let mut i: usize = 0;
        while i < command_buffers.len()
            invariant
                i <= command_buffers@.len(),
                command_buffers@.len() == old(command_buffers)@.len(),
                forall|j: int|
                    0 <= j < i ==> if old(command_buffers)@[j].pool() == self.id() {
                        self.fresh(#[trigger] &command_buffers@[j], old(command_buffers)@[j].id())
                    } else {
                        command_buffers@[j] == old(command_buffers)@[j]
                    },
                forall|j: int|
                    i <= j < command_buffers@.len() ==> command_buffers@[j] == old(command_buffers)@[j],
            decreases command_buffers@.len() - i,
        {
            if command_buffers[i].command_pool == self.handle {
                let fresh = self.construct_command_buffer(command_buffers[i].handle);
                command_buffers.set(i, fresh);
            }
            i += 1;
        }
    }
}

/// One step of `scope_after`: what a command does to commands in order.
pub proof fn lemma_scope_push(commands: Seq<CommandView>, command: CommandView)
    ensures
        scope_after(commands.push(command)) == match scope_after(commands) {
            None => None,
            Some(inside) => match command {
                CommandView::BeginRenderPass { .. } => if inside {
                    None
                } else {
                    Some(true)
                },
                CommandView::EndRenderPass => if inside {
                    Some(false)
                } else {
                    None
                },
                CommandView::Draw { .. } => if inside {
                    Some(true)
                } else {
                    None
                },
                CommandView::CopyBuffer { .. } => if inside {
                    None
                } else {
                    Some(false)
                },
                _ => Some(inside),
            },
        },
{
    assert(commands.push(command).drop_last() =~= commands);
}

} // verus!
