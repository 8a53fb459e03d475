use scene_viewer::allocator::{Allocator, MemoryLocation, MemoryRegion, MemoryRequirements};
use scene_viewer::buffer::{Buffer, BufferCreateInfo};
use scene_viewer::command_pool::{CommandBuffer, CommandBufferBeginInfo, CommandPool};
use scene_viewer::error::{Error, SynchronizationError};
use scene_viewer::format::Format;
use scene_viewer::frame_buffer::FrameBuffer;
use scene_viewer::image_view::ImageView;
use scene_viewer::surface::{Extent2D, PresentMode, SurfaceFormat};
use scene_viewer::swapchain::{Swapchain, SwapchainConfig};
use scene_viewer::fence::{Fence, FenceState, FenceWaitInfo, FENCE_CREATE_SIGNALED};
use scene_viewer::frame::{
    FrameAction, FrameEvent, FrameLoop, FramePhase, FrameResources, STAGE_COLOR_ATTACHMENT_OUTPUT,
};
use scene_viewer::semaphore::Semaphore;

fn slot(n: u64) -> FrameResources {
    FrameResources::new(Semaphore::new(100 + n), Semaphore::new(200 + n), 300 + n)
}

struct Parts {
    swapchain: Swapchain,
    command_buffers: Vec<CommandBuffer>,
    framebuffers: Vec<FrameBuffer>,
    uniform_buffers: Vec<Buffer>,
    resources: Vec<FrameResources>,
}

fn recorded(handle: u64) -> CommandBuffer {
    let mut command_buffer = CommandPool::new(50, 0).construct_command_buffer(handle);
    command_buffer.begin(&CommandBufferBeginInfo { flags: 0 });
    command_buffer.end();
    command_buffer
}

fn parts(images: u64) -> Parts {
    let config = SwapchainConfig {
        min_image_count: images as u32,
        surface_format: SurfaceFormat { format: Format { raw: 44 }, color_space: 0 },
        extent: Extent2D { width: 8, height: 6 },
        present_mode: PresentMode::Fifo,
        pre_transform: 1,
    };
    let views = (0..images)
        .map(|image| ImageView::new(image, &Swapchain::image_view_info(&config, image)))
        .collect();
    let mut allocator = Allocator::new();
    let desc = Buffer::allocation_desc(
        MemoryRequirements { size: 64, alignment: 4, memory_type_bits: 1 },
        MemoryLocation::CpuToGpu,
        String::new(),
    );
    Parts {
        swapchain: Swapchain::new(&config, 1, views),
        command_buffers: (0..images).map(|image| recorded(400 + image)).collect(),
        framebuffers: (0..images)
            .map(|image| {
                FrameBuffer::new(
                    500 + image,
                    &FrameBuffer::create_info(9, image, 99, Extent2D { width: 8, height: 6 }),
                )
            })
            .collect(),
        uniform_buffers: (0..images)
            .map(|image| {
                Buffer::new(
                    &mut allocator,
                    &BufferCreateInfo { size: 64, usage: 0x10 },
                    600 + image,
                    &desc,
                    Ok(MemoryRegion { memory: 1, offset: 64 * image, size: 64, host_visible: true }),
                    Ok(()),
                )
                .unwrap()
            })
            .collect(),
        resources: (0..images).map(slot).collect(),
    }
}

fn start(parts: Parts) -> Option<FrameLoop> {
    FrameLoop::new(
        &parts.swapchain,
        &parts.command_buffers,
        &parts.framebuffers,
        &parts.uniform_buffers,
        parts.resources,
    )
}

fn ring(size: u64) -> FrameLoop {
    start(parts(size)).unwrap()
}

fn run_frame(frames: &mut FrameLoop, stop: bool, image: u32) -> FrameAction {
    let index = frames.current_index() as u64;
    assert_eq!(frames.action(), FrameAction::Poll);
    assert_eq!(
        frames.step(FrameEvent::Polled { stop }),
        FrameAction::WaitFence { fence: 300 + index }
    );
    assert_eq!(frames.step(FrameEvent::Completed), FrameAction::ResetFence { fence: 300 + index });
    assert_eq!(
        frames.step(FrameEvent::Completed),
        FrameAction::Acquire { semaphore: 100 + index }
    );
    assert_eq!(
        frames.step(FrameEvent::Acquired { image, suboptimal: false }),
        FrameAction::UpdateUniform { slot: index as usize, buffer: 600 + index }
    );
    assert_eq!(
        frames.step(FrameEvent::Completed),
        FrameAction::Submit {
            image,
            command_buffer: 400 + image as u64,
            wait_semaphore: 100 + index,
            wait_stage: STAGE_COLOR_ATTACHMENT_OUTPUT,
            signal_semaphore: 200 + index,
            fence: 300 + index,
        }
    );
    assert_eq!(
        frames.step(FrameEvent::Completed),
        FrameAction::Present { image, wait_semaphore: 200 + index }
    );
    frames.step(FrameEvent::Completed)
}

#[test]
fn fence_starts_as_created() {
    assert_eq!(Fence::create_flags(true), FENCE_CREATE_SIGNALED);
    assert_eq!(Fence::create_flags(false), 0);
    assert_eq!(FENCE_CREATE_SIGNALED, ash::vk::FenceCreateFlags::SIGNALED.as_raw());
    assert_eq!(Fence::new(4, true).state(), FenceState::Signaled);
    assert_eq!(Fence::new(4, false).state(), FenceState::Unsignaled);
    assert_eq!(Fence::new(4, false).handle(), 4);
}

#[test]
fn fence_follows_what_the_device_reports() {
    let mut fence = Fence::new(4, false);
    fence.arm();
    assert_eq!(fence.state(), FenceState::Armed);
    assert_eq!(fence.wait(1000), FenceWaitInfo { fence: 4, wait_all: true, timeout: 1000 });
    assert_eq!(
        fence.wait_max_timeout(),
        FenceWaitInfo { fence: 4, wait_all: true, timeout: u64::MAX }
    );
    assert_eq!(fence.waited(Err(SynchronizationError::Wait)), Err(SynchronizationError::Wait));
    assert_eq!(fence.state(), FenceState::Armed);
    assert_eq!(fence.waited(Ok(())), Ok(()));
    assert_eq!(fence.state(), FenceState::Signaled);
    assert_eq!(fence.reset(Err(SynchronizationError::Reset)), Err(SynchronizationError::Reset));
    assert_eq!(fence.state(), FenceState::Signaled);
    assert_eq!(fence.reset(Ok(())), Ok(()));
    assert_eq!(fence.state(), FenceState::Unsignaled);
    assert_eq!(fence.handle(), 4);
}

#[test]
fn frame_loop_needs_a_ring_of_signaled_fences() {
    assert!(start(parts(0)).is_none());
    let mut unsignaled = parts(2);
    unsignaled.resources[1].render_done_fence = Fence::new(301, false);
    assert!(start(unsignaled).is_none());
    let frames = ring(3);
    assert_eq!(frames.ring_size(), 3);
    assert_eq!(frames.current_index(), 0);
    assert_eq!(frames.phase(), FramePhase::Polling);
    assert_eq!(frames.frames_in_flight(), 0);
    assert!(!frames.stop_requested());
}

#[test]
fn frame_loop_needs_one_of_each_for_every_image() {
    let mut short = parts(3);
    short.resources.pop();
    assert!(start(short).is_none());
    let mut short = parts(3);
    short.command_buffers.pop();
    assert!(start(short).is_none());
    let mut short = parts(3);
    short.framebuffers.pop();
    assert!(start(short).is_none());
    let mut short = parts(3);
    short.uniform_buffers.pop();
    assert!(start(short).is_none());
    let mut long = parts(2);
    long.resources.push(slot(2));
    assert!(start(long).is_none());
    let mut unrecorded = parts(2);
    unrecorded.command_buffers[1] = CommandPool::new(50, 0).construct_command_buffer(401);
    assert!(start(unrecorded).is_none());
    assert_eq!(start(parts(3)).unwrap().ring_size(), 3);
}

#[test]
fn frame_loop_goes_round_the_ring() {
    let mut frames = ring(3);
    assert_eq!(run_frame(&mut frames, false, 2), FrameAction::Poll);
    assert_eq!(frames.current_index(), 1);
    assert_eq!(run_frame(&mut frames, false, 0), FrameAction::Poll);
    assert_eq!(frames.current_index(), 2);
    assert_eq!(run_frame(&mut frames, false, 1), FrameAction::Poll);
    assert_eq!(frames.current_index(), 0);
    assert_eq!(run_frame(&mut frames, false, 2), FrameAction::Poll);
    assert_eq!(frames.current_index(), 1);
}

#[test]
fn frames_in_flight_never_exceed_the_ring() {
    let mut frames = ring(2);
    assert_eq!(frames.frames_in_flight(), 0);
    run_frame(&mut frames, false, 0);
    assert_eq!(frames.frames_in_flight(), 1);
    run_frame(&mut frames, false, 1);
    assert_eq!(frames.frames_in_flight(), 2);
    for frame in 0..10u32 {
        frames.step(FrameEvent::Polled { stop: false });
        assert_eq!(frames.frames_in_flight(), 2);
        frames.step(FrameEvent::Completed);
        assert_eq!(frames.frames_in_flight(), 1);
        frames.step(FrameEvent::Completed);
        frames.step(FrameEvent::Acquired { image: frame % 2, suboptimal: true });
        assert!(matches!(frames.step(FrameEvent::Completed), FrameAction::Submit { .. }));
        assert_eq!(frames.frames_in_flight(), 1);
        frames.step(FrameEvent::Completed);
        assert_eq!(frames.frames_in_flight(), 2);
        frames.step(FrameEvent::Completed);
        assert!(frames.frames_in_flight() <= frames.ring_size());
    }
    assert_eq!(frames.resources()[0].render_done_fence.state(), FenceState::Armed);
}

#[test]
fn stop_is_honoured_after_the_frame() {
    let mut frames = ring(2);
    assert_eq!(run_frame(&mut frames, true, 1), FrameAction::WaitIdle);
    assert_eq!(frames.phase(), FramePhase::Draining);
    assert!(frames.stop_requested());
    assert_eq!(frames.current_index(), 1);
    assert_eq!(frames.step(FrameEvent::Completed), FrameAction::Exit);
    assert_eq!(frames.phase(), FramePhase::Finished);
    assert_eq!(frames.step(FrameEvent::Completed), FrameAction::Exit);
    assert_eq!(frames.step(FrameEvent::Polled { stop: false }), FrameAction::Exit);
}

#[test]
fn failure_ends_the_loop_after_the_idle_wait() {
    let out_of_date = Error::Synchronization(SynchronizationError::OutOfDate);
    let mut frames = ring(2);
    run_frame(&mut frames, false, 0);
    for _ in 0..6 {
        frames.step(match frames.phase() {
            FramePhase::Polling => FrameEvent::Polled { stop: false },
            FramePhase::Acquiring => FrameEvent::Acquired { image: 1, suboptimal: false },
            _ => FrameEvent::Completed,
        });
    }
    assert_eq!(frames.phase(), FramePhase::Presenting);
    assert_eq!(frames.frames_in_flight(), 2);
    assert_eq!(frames.step(FrameEvent::Failed(out_of_date)), FrameAction::WaitIdle);
    assert_eq!(frames.phase(), FramePhase::Aborting(out_of_date));
    assert_eq!(frames.step(FrameEvent::Completed), FrameAction::Abort(out_of_date));
    assert_eq!(frames.phase(), FramePhase::Failed(out_of_date));
    assert_eq!(frames.step(FrameEvent::Completed), FrameAction::Abort(out_of_date));
}

#[test]
fn first_failure_is_the_one_reported() {
    let wait = Error::Synchronization(SynchronizationError::Wait);
    let idle = Error::Synchronization(SynchronizationError::Idle);
    let mut frames = ring(2);
    frames.step(FrameEvent::Polled { stop: false });
    assert_eq!(frames.step(FrameEvent::Failed(wait)), FrameAction::WaitIdle);
    assert_eq!(frames.step(FrameEvent::Failed(idle)), FrameAction::Abort(wait));
}

#[test]
fn failed_idle_wait_of_a_stop_is_reported() {
    let idle = Error::Synchronization(SynchronizationError::Idle);
    let mut frames = ring(2);
    assert_eq!(run_frame(&mut frames, true, 1), FrameAction::WaitIdle);
    assert_eq!(frames.step(FrameEvent::Failed(idle)), FrameAction::Abort(idle));
    assert_eq!(frames.phase(), FramePhase::Failed(idle));
}

#[test]
fn image_outside_the_ring_is_an_acquire_failure() {
    let failed = Error::Synchronization(SynchronizationError::Acquire);
    let mut frames = ring(2);
    frames.step(FrameEvent::Polled { stop: false });
    frames.step(FrameEvent::Completed);
    frames.step(FrameEvent::Completed);
    assert_eq!(
        frames.step(FrameEvent::Acquired { image: 2, suboptimal: false }),
        FrameAction::WaitIdle
    );
    assert_eq!(frames.step(FrameEvent::Completed), FrameAction::Abort(failed));
}

#[test]
fn unexpected_result_ends_the_loop() {
    let out_of_order = Error::Synchronization(SynchronizationError::OutOfOrder);
    let mut frames = ring(2);
    assert_eq!(frames.step(FrameEvent::Completed), FrameAction::WaitIdle);
    assert_eq!(frames.step(FrameEvent::Completed), FrameAction::Abort(out_of_order));
    let mut frames = ring(2);
    frames.step(FrameEvent::Polled { stop: false });
    assert_eq!(
        frames.step(FrameEvent::Acquired { image: 0, suboptimal: false }),
        FrameAction::WaitIdle
    );
    assert_eq!(frames.step(FrameEvent::Polled { stop: true }), FrameAction::Abort(out_of_order));
}

#[test]
fn wait_stage_matches_the_api() {
    assert_eq!(
        STAGE_COLOR_ATTACHMENT_OUTPUT,
        ash::vk::PipelineStageFlags::COLOR_ATTACHMENT_OUTPUT.as_raw()
    );
}
