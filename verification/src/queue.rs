//! Queues: where recorded commands are handed to the device.

use vstd::prelude::*;
use crate::command_pool::{CommandBuffer, RecordingState};
use crate::error::SynchronizationError;
use crate::fence::{Fence, FenceState};

verus! {

/// One batch of work for a queue.
#[derive(Clone, Debug)]
pub struct SubmitInfo {
    pub command_buffer: u64,
    pub wait_semaphores: Vec<u64>,
    /// For each semaphore waited for, the pipeline stages that wait.
    pub wait_stages: Vec<u32>,
    pub signal_semaphores: Vec<u64>,
    /// The fence signaled when the batch is done.
    pub fence: u64,
}

/// A queue of a logical device.
#[derive(Clone, Copy, Debug, PartialEq, Eq, Structural)]
pub struct Queue {
    handle: u64,
    family_index: u32,
}

impl Queue {
    /// The queue's handle.
    pub closed spec fn id(&self) -> u64 {
        self.handle
    }

    /// The family the queue belongs to.
    pub closed spec fn family(&self) -> u32 {
        self.family_index
    }

    /// The queue with handle `handle`: the first queue of its family.
    pub fn new(handle: u64, family_index: u32) -> (queue: Self)
        ensures
            queue.id() == handle,
            queue.family() == family_index,
    {
        Self { handle, family_index }
    }

    pub fn family_index(&self) -> (index: u32)
        ensures
            index == self.family(),
    {
        self.family_index
    }

    pub fn handle(&self) -> (handle: u64)
        ensures
            handle == self.id(),
    {
        self.handle
    }

    /// The batch that runs `command_buffer` once the semaphores waited for
    /// are signaled, then signals the others and the fence.
    pub fn submit_info(
        &self,
        command_buffer: &CommandBuffer,
        wait_semaphores: &[u64],
        wait_stages: &[u32],
        signal_semaphores: &[u64],
        fence: &Fence,
    ) -> (info: SubmitInfo)
        requires
            command_buffer.status() == RecordingState::Executable,
            wait_semaphores@.len() == wait_stages@.len(),
            fence.status() == FenceState::Unsignaled,
        ensures
            info.command_buffer == command_buffer.id(),
            info.wait_semaphores@ == wait_semaphores@,
            info.wait_stages@ == wait_stages@,
            info.signal_semaphores@ == signal_semaphores@,
            info.fence == fence.id(),
    {
        SubmitInfo {
            command_buffer: command_buffer.handle(),
            wait_semaphores: vstd::slice::slice_to_vec(wait_semaphores),
            wait_stages: vstd::slice::slice_to_vec(wait_stages),
            signal_semaphores: vstd::slice::slice_to_vec(signal_semaphores),
            fence: fence.handle(),
        }
    }

    /// Records how the submission of a batch ended: one that was accepted
    /// arms the batch's fence; a failure leaves the fence as it was and is
    /// handed on.
    pub fn submit(&self, fence: &mut Fence, submitted: Result<(), SynchronizationError>) -> (outcome:
        Result<(), SynchronizationError>)
        requires
            old(fence).status() == FenceState::Unsignaled,
        ensures
            outcome == submitted,
            *final(fence) == if submitted.is_ok() {
                old(fence).with_status(FenceState::Armed)
            } else {
                *old(fence)
            },
    {
        if submitted.is_ok() {
            fence.arm();
        }
        submitted
    }
}

} // verus!
