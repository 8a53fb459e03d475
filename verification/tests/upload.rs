use scene_viewer::allocator::MemoryLocation;
use scene_viewer::buffer::BufferCreateInfo;
use scene_viewer::error::{Error, ResourceError, SynchronizationError};
use scene_viewer::upload::{block_bytes, Upload, UploadAction, UploadEvent, UploadPhase};

fn staging(block: usize, size: u64) -> UploadAction {
    UploadAction::CreateStaging {
        block,
        info: BufferCreateInfo { size, usage: 0x1 },
        location: MemoryLocation::CpuToGpu,
    }
}

fn vertex(block: usize, size: u64) -> UploadAction {
    UploadAction::CreateVertex {
        block,
        info: BufferCreateInfo { size, usage: 0xc2 },
        location: MemoryLocation::GpuOnly,
    }
}

fn advance(upload: &mut Upload, steps: usize) -> UploadAction {
    let mut action = upload.action();
    for _ in 0..steps {
        action = upload.step(UploadEvent::Completed);
    }
    action
}

#[test]
fn upload_stages_then_copies_then_discards() {
    let mut upload = Upload::new(vec![48, 1024]);
    let mut script = vec![upload.action()];
    while !matches!(script.last(), Some(UploadAction::Done)) {
        script.push(upload.step(UploadEvent::Completed));
    }
    assert_eq!(
        script,
        vec![
            staging(0, 48),
            UploadAction::Fill { block: 0 },
            staging(1, 1024),
            UploadAction::Fill { block: 1 },
            vertex(0, 48),
            vertex(1, 1024),
            UploadAction::Record,
            UploadAction::CreateFence,
            UploadAction::Submit,
            UploadAction::WaitFence,
            UploadAction::DiscardStaging { block: 1 },
            UploadAction::DiscardStaging { block: 0 },
            UploadAction::Done,
        ]
    );
    assert_eq!(upload.phase(), UploadPhase::Done);
    assert_eq!(upload.staging_buffers(), 0);
    assert_eq!(upload.vertex_buffers(), 2);
    assert_eq!(upload.step(UploadEvent::Completed), UploadAction::Done);
}

#[test]
fn upload_of_nothing_still_submits_and_waits() {
    let mut upload = Upload::new(Vec::new());
    assert_eq!(upload.action(), UploadAction::Record);
    assert_eq!(upload.step(UploadEvent::Completed), UploadAction::CreateFence);
    assert_eq!(upload.step(UploadEvent::Completed), UploadAction::Submit);
    assert_eq!(upload.step(UploadEvent::Completed), UploadAction::WaitFence);
    assert_eq!(upload.step(UploadEvent::Completed), UploadAction::Done);
}

#[test]
fn failed_upload_discards_what_it_made() {
    let out_of_memory = Error::Resource(ResourceError::OutOfMemory);
    let mut upload = Upload::new(vec![16, 32, 64]);
    assert_eq!(advance(&mut upload, 7), vertex(1, 32));
    assert_eq!(upload.staging_buffers(), 3);
    assert_eq!(upload.vertex_buffers(), 1);
    assert_eq!(
        upload.step(UploadEvent::Failed(out_of_memory)),
        UploadAction::DiscardVertex { block: 0 }
    );
    assert_eq!(upload.step(UploadEvent::Completed), UploadAction::DiscardStaging { block: 2 });
    assert_eq!(upload.step(UploadEvent::Completed), UploadAction::DiscardStaging { block: 1 });
    assert_eq!(upload.step(UploadEvent::Completed), UploadAction::DiscardStaging { block: 0 });
    assert_eq!(upload.step(UploadEvent::Completed), UploadAction::Abort(out_of_memory));
    assert_eq!(upload.phase(), UploadPhase::Failed(out_of_memory));
    assert_eq!((upload.staging_buffers(), upload.vertex_buffers()), (0, 0));
}

#[test]
fn failure_of_the_first_step_leaves_nothing_to_discard() {
    let refused = Error::Resource(ResourceError::HandleCreation);
    let mut upload = Upload::new(vec![16]);
    assert_eq!(upload.step(UploadEvent::Failed(refused)), UploadAction::Abort(refused));
    let mut upload = Upload::new(vec![16]);
    upload.step(UploadEvent::Completed);
    assert_eq!(
        upload.step(UploadEvent::Failed(Error::Io)),
        UploadAction::DiscardStaging { block: 0 }
    );
    assert_eq!(upload.step(UploadEvent::Completed), UploadAction::Abort(Error::Io));
}

#[test]
fn failed_wait_lets_the_device_go_idle_before_discarding() {
    let wait = Error::Synchronization(SynchronizationError::Wait);
    let mut upload = Upload::new(vec![16]);
    assert_eq!(advance(&mut upload, 6), UploadAction::WaitFence);
    assert_eq!(upload.step(UploadEvent::Failed(wait)), UploadAction::WaitIdle);
    assert_eq!(upload.phase(), UploadPhase::Idling(wait));
    assert_eq!(upload.step(UploadEvent::Completed), UploadAction::DiscardVertex { block: 0 });
    assert_eq!(upload.step(UploadEvent::Completed), UploadAction::DiscardStaging { block: 0 });
    assert_eq!(upload.step(UploadEvent::Completed), UploadAction::Abort(wait));
}

#[test]
fn failed_submission_discards_without_waiting() {
    let submit = Error::Synchronization(SynchronizationError::Submit);
    let mut upload = Upload::new(vec![16]);
    assert_eq!(advance(&mut upload, 5), UploadAction::Submit);
    assert_eq!(
        upload.step(UploadEvent::Failed(submit)),
        UploadAction::DiscardVertex { block: 0 }
    );
}

#[test]
fn source_block_is_the_first_bytes_of_its_source() {
    assert_eq!(block_bytes(&[1, 2, 3, 4, 5], 3), Ok(vec![1, 2, 3]));
    assert_eq!(block_bytes(&[1, 2, 3], 3), Ok(vec![1, 2, 3]));
    assert_eq!(block_bytes(&[1, 2, 3], 0), Ok(Vec::new()));
    assert_eq!(block_bytes(&[1, 2, 3], 4), Err(Error::Io));
    assert_eq!(block_bytes(&[], 1), Err(Error::Io));
}
