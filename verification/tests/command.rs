use scene_viewer::allocator::{Allocator, MemoryLocation, MemoryRegion, MemoryRequirements};
use scene_viewer::buffer::{Buffer, BufferCreateInfo};
use scene_viewer::command_pool::{
    BufferCopy, Command, CommandBuffer, CommandBufferBeginInfo, CommandPool, RecordingState,
    RenderPassBeginInfo, SubpassContents,
};
use scene_viewer::error::{ResourceError, SynchronizationError};
use scene_viewer::fence::{Fence, FenceState};
use scene_viewer::frame_buffer::FrameBuffer;
use scene_viewer::graphics_pipeline::GraphicsPipeline;
use scene_viewer::pipeline::{Pipeline, PipelineBindPoint};
use scene_viewer::queue::Queue;
use scene_viewer::surface::Extent2D;
use scene_viewer::viewer::{record_frame, record_upload, VertexDataBuffers};

fn buffer(allocator: &mut Allocator, handle: u64, size: u64, offset: u64) -> Buffer {
    let desc = Buffer::allocation_desc(
        MemoryRequirements { size, alignment: 4, memory_type_bits: 1 },
        MemoryLocation::CpuToGpu,
        String::from("buffer"),
    );
    Buffer::new(
        allocator,
        &BufferCreateInfo { size, usage: 0 },
        handle,
        &desc,
        Ok(MemoryRegion { memory: 1, offset, size, host_visible: true }),
        Ok(()),
    )
    .unwrap()
}

fn fresh() -> CommandBuffer {
    CommandPool::new(50, 0).construct_command_buffer(60)
}

fn kinds(command_buffer: &CommandBuffer) -> Vec<&'static str> {
    command_buffer
        .commands()
        .iter()
        .map(|command| match command {
            Command::Draw { .. } => "draw",
            Command::BindVertexBuffers { .. } => "bind vertex buffers",
            Command::BindPipeline { .. } => "bind pipeline",
            Command::CopyBuffer { .. } => "copy buffer",
            Command::BeginRenderPass { .. } => "begin render pass",
            Command::EndRenderPass => "end render pass",
            Command::BindDescriptorSets { .. } => "bind descriptor sets",
        })
        .collect()
}

#[test]
fn pool_hands_out_fresh_command_buffers() {
    let pool = CommandPool::new(50, 2);
    assert_eq!(pool.handle(), 50);
    assert_eq!(pool.queue_family_index(), 2);
    let command_buffers = pool.allocate_command_buffers(&[7, 8, 9]);
    assert_eq!(command_buffers.iter().map(|c| c.handle()).collect::<Vec<_>>(), vec![7, 8, 9]);
    assert!(command_buffers.iter().all(|c| c.state() == RecordingState::Initial));
    assert!(command_buffers.iter().all(|c| c.commands().is_empty()));
    assert_eq!(pool.allocate_command_buffer(&[4]).handle(), 4);
    assert_eq!(pool.allocate_command_buffers(&[]).len(), 0);
}

#[test]
fn commands_are_kept_in_order() {
    let pipeline = GraphicsPipeline::new(Ok(vec![90, 91])).unwrap();
    assert_eq!(pipeline.handle(), 91);
    assert_eq!(pipeline.bind_point(), PipelineBindPoint::Graphics);
    let mut command_buffer = fresh();
    command_buffer.begin(&CommandBufferBeginInfo { flags: 0 });
    assert_eq!(command_buffer.state(), RecordingState::Recording);
    command_buffer.bind_pipeline(&pipeline);
    command_buffer.bind_descriptor_sets(PipelineBindPoint::Graphics, 33, 1, &[5, 6], &[16]);
    let info = RenderPassBeginInfo {
        render_pass: 3,
        framebuffer: 4,
        render_area: Extent2D { width: 8, height: 6 },
    };
    command_buffer.begin_render_pass(&info, SubpassContents::Inline);
    assert_eq!(command_buffer.state(), RecordingState::InRenderPass);
    command_buffer.bind_vertex_buffers(&[1, 2], &[0, 64]);
    command_buffer.draw(3, 1, 0, 0);
    command_buffer.end_render_pass();
    assert_eq!(command_buffer.state(), RecordingState::Recording);
    command_buffer.end();
    assert_eq!(command_buffer.state(), RecordingState::Executable);
    assert_eq!(
        kinds(&command_buffer),
        vec![
            "bind pipeline",
            "bind descriptor sets",
            "begin render pass",
            "bind vertex buffers",
            "draw",
            "end render pass"
        ]
    );
    let commands = command_buffer.commands();
    assert!(matches!(commands[0],
        Command::BindPipeline { bind_point: PipelineBindPoint::Graphics, pipeline: 91 }));
    assert!(matches!(&commands[1],
        Command::BindDescriptorSets { layout: 33, first_set: 1, descriptor_sets, dynamic_offsets, .. }
        if descriptor_sets == &vec![5, 6] && dynamic_offsets == &vec![16]));
    assert!(matches!(commands[2],
        Command::BeginRenderPass { info: begun, contents: SubpassContents::Inline } if begun == info));
    assert!(matches!(&commands[3],
        Command::BindVertexBuffers { first_binding: 0, buffers, offsets }
        if buffers == &vec![1, 2] && offsets == &vec![0, 64]));
    assert!(matches!(commands[4],
        Command::Draw { vertex_count: 3, instance_count: 1, first_vertex: 0, first_instance: 0 }));
}

#[test]
fn begin_drops_what_was_recorded() {
    let mut allocator = Allocator::new();
    let source = buffer(&mut allocator, 1, 16, 0);
    let target = buffer(&mut allocator, 2, 16, 16);
    let mut command_buffer = fresh();
    command_buffer.begin(&CommandBufferBeginInfo { flags: 0 });
    command_buffer.copy_buffer(&source, &target);
    command_buffer.end();
    assert_eq!(command_buffer.commands().len(), 1);
    assert_eq!(command_buffer.usage_flags(), 0);
    command_buffer.begin(&CommandBufferBeginInfo { flags: 4 });
    assert_eq!(command_buffer.commands().len(), 0);
    assert_eq!(command_buffer.state(), RecordingState::Recording);
    assert_eq!(command_buffer.usage_flags(), 4);
    assert_eq!(command_buffer.handle(), 60);
}

#[test]
fn pool_reset_takes_its_buffers_back() {
    let pool = CommandPool::new(50, 0);
    let other = CommandPool::new(51, 0);
    let mut command_buffers = pool.allocate_command_buffers(&[7, 8]);
    command_buffers.push(other.construct_command_buffer(9));
    for command_buffer in command_buffers.iter_mut() {
        command_buffer.begin(&CommandBufferBeginInfo { flags: 0 });
        command_buffer.bind_vertex_buffers(&[1], &[0]);
        command_buffer.end();
    }
    pool.reset(&mut command_buffers);
    assert_eq!(command_buffers[0].state(), RecordingState::Initial);
    assert_eq!(command_buffers[1].commands().len(), 0);
    assert_eq!(command_buffers[1].handle(), 8);
    assert_eq!(command_buffers[2].state(), RecordingState::Executable);
    assert_eq!(command_buffers[2].commands().len(), 1);
}

#[test]
fn upload_copies_each_staging_buffer() {
    let mut allocator = Allocator::new();
    let staging = vec![buffer(&mut allocator, 1, 16, 0), buffer(&mut allocator, 2, 40, 64)];
    let vertex = vec![buffer(&mut allocator, 3, 16, 128), buffer(&mut allocator, 4, 48, 256)];
    let mut command_buffer = fresh();
    record_upload(&mut command_buffer, &staging, &vertex);
    assert_eq!(command_buffer.state(), RecordingState::Executable);
    let commands = command_buffer.commands();
    assert_eq!(commands.len(), 2);
    assert!(matches!(commands[0], Command::CopyBuffer { src: 1, dst: 3, region }
        if region == BufferCopy { src_offset: 0, dst_offset: 128, size: 16 }));
    assert!(matches!(commands[1], Command::CopyBuffer { src: 2, dst: 4, region }
        if region == BufferCopy { src_offset: 64, dst_offset: 256, size: 40 }));
    let mut empty = fresh();
    record_upload(&mut empty, &Vec::new(), &Vec::new());
    assert_eq!(empty.state(), RecordingState::Executable);
    assert!(empty.commands().is_empty());
}

#[test]
fn vertex_data_lists_handles_and_offsets() {
    let mut allocator = Allocator::new();
    let buffers = vec![buffer(&mut allocator, 3, 16, 128), buffer(&mut allocator, 4, 48, 256)];
    let vertex_data = VertexDataBuffers::new(buffers);
    assert_eq!(vertex_data.handles(), &[3, 4]);
    assert_eq!(vertex_data.offsets(), &[128, 256]);
    let buffers = vertex_data.into_buffers();
    assert_eq!(buffers.len(), 2);
    for buffer in buffers {
        buffer.destroy(&mut allocator);
    }
    assert!(allocator.is_balanced());
    let nothing = VertexDataBuffers::new(Vec::new());
    assert!(nothing.handles().is_empty());
    assert!(nothing.offsets().is_empty());
}

#[test]
fn frame_binds_vertex_data_inside_the_render_pass() {
    let mut allocator = Allocator::new();
    let vertex_data = VertexDataBuffers::new(vec![buffer(&mut allocator, 3, 16, 128)]);
    let info = FrameBuffer::create_info(20, 30, 31, Extent2D { width: 800, height: 600 });
    assert_eq!(info.attachments, vec![30, 31]);
    assert_eq!((info.width, info.height, info.layers, info.render_pass), (800, 600, 1, 20));
    let frame_buffer = FrameBuffer::new(40, &info);
    assert_eq!(frame_buffer.handle(), 40);
    assert_eq!(frame_buffer.extent(), Extent2D { width: 800, height: 600 });
    let mut command_buffer = fresh();
    record_frame(&mut command_buffer, 20, &frame_buffer, &vertex_data);
    assert_eq!(command_buffer.state(), RecordingState::Executable);
    assert_eq!(
        kinds(&command_buffer),
        vec!["begin render pass", "bind vertex buffers", "end render pass"]
    );
    let commands = command_buffer.commands();
    assert!(matches!(commands[0], Command::BeginRenderPass { info, contents: SubpassContents::Inline }
        if info == RenderPassBeginInfo {
            render_pass: 20,
            framebuffer: 40,
            render_area: Extent2D { width: 800, height: 600 },
        }));
    assert!(matches!(&commands[1], Command::BindVertexBuffers { first_binding: 0, buffers, offsets }
        if buffers == &vec![3] && offsets == &vec![128]));
}

#[test]
fn failed_pipeline_creation_is_handed_on() {
    assert_eq!(
        GraphicsPipeline::new(Err(ResourceError::HandleCreation)).err(),
        Some(ResourceError::HandleCreation)
    );
    assert_eq!(GraphicsPipeline::new(Ok(vec![12])).unwrap().handle(), 12);
}

#[test]
fn submission_names_everything_and_arms_the_fence() {
    let queue = Queue::new(70, 2);
    assert_eq!(queue.handle(), 70);
    assert_eq!(queue.family_index(), 2);
    let mut command_buffer = fresh();
    command_buffer.begin(&CommandBufferBeginInfo { flags: 0 });
    command_buffer.end();
    let mut fence = Fence::new(80, false);
    let info = queue.submit_info(&command_buffer, &[1], &[0x400], &[2, 3], &fence);
    assert_eq!(info.command_buffer, 60);
    assert_eq!(info.wait_semaphores, vec![1]);
    assert_eq!(info.wait_stages, vec![0x400]);
    assert_eq!(info.signal_semaphores, vec![2, 3]);
    assert_eq!(info.fence, 80);
    assert_eq!(
        queue.submit(&mut fence, Err(SynchronizationError::Submit)),
        Err(SynchronizationError::Submit)
    );
    assert_eq!(fence.state(), FenceState::Unsignaled);
    assert_eq!(queue.submit(&mut fence, Ok(())), Ok(()));
    assert_eq!(fence.state(), FenceState::Armed);
}
