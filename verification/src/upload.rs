//! The one-time upload of geometry: which device operation comes next,
//! given how the last one ended.
//!
//! Every source block gets a staging buffer that the host fills; then every
//! block gets a buffer in device memory; one command buffer copies each
//! staging buffer to its device buffer and is submitted with a fence of its
//! own; once the fence has been waited for the staging buffers are
//! discarded. After a failure whatever was made is discarded again, once
//! the device is known to be done with it.

use vstd::prelude::*;
use crate::allocator::MemoryLocation;
use crate::buffer::BufferCreateInfo;
use crate::buffer::{USAGE_INDEX_BUFFER, USAGE_TRANSFER_DST, USAGE_TRANSFER_SRC};
use crate::buffer::USAGE_VERTEX_BUFFER;
use crate::error::Error;
use crate::viewer::{staging_buffer_info, staging_buffer_location};
use crate::viewer::{vertex_buffer_info, vertex_buffer_location};

verus! {

/// The bytes of a source block of `length` bytes, given what its source
/// holds, be that a file or the data embedded in the asset: the first
/// `length` bytes. A source that holds fewer is an input failure.
pub fn block_bytes(source: &[u8], length: usize) -> (outcome: Result<Vec<u8>, Error>)
    ensures
        if length <= source@.len() {
            outcome matches Ok(bytes) && bytes@ == source@.subrange(0, length as int)
        } else {
            outcome matches Err(e) && e == Error::Io
        },
{
    if length <= source.len() {
        Ok(vstd::slice::slice_to_vec(vstd::slice::slice_subrange(source, 0, length)))
    } else {
        Err(Error::Io)
    }
}

/// The operation whose result the upload is waiting for.
#[derive(Clone, Copy, Debug, PartialEq, Eq, Structural)]
pub enum UploadPhase {
    Staging,
    Filling,
    Allocating,
    Recording,
    Fencing,
    Submitting,
    Waiting,
    Discarding,
    /// A failure came after the submission: the device is let go idle
    /// before anything is discarded.
    Idling(Error),
    /// Discarding the device buffers made before a failure.
    UnwindingVertex(Error),
    /// Discarding the staging buffers made before a failure.
    UnwindingStaging(Error),
    Done,
    Failed(Error),
}

/// How the operation last asked for ended.
#[derive(Clone, Copy, Debug, PartialEq, Eq, Structural)]
pub enum UploadEvent {
    Completed,
    Failed(Error),
}

/// What to do next.
#[derive(Clone, Copy, Debug, PartialEq, Eq, Structural)]
pub enum UploadAction {
    /// Make the staging buffer of source block `block`.
    CreateStaging { block: usize, info: BufferCreateInfo, location: MemoryLocation },
    /// Copy the bytes of source block `block` into its staging buffer and
    /// flush.
    Fill { block: usize },
    /// Make the device buffer of source block `block`.
    CreateVertex { block: usize, info: BufferCreateInfo, location: MemoryLocation },
    /// Record the copies from each staging buffer to its device buffer.
    Record,
    /// Make the fence of this upload, unsignaled.
    CreateFence,
    /// Submit the copies, to signal the fence.
    Submit,
    /// Wait, without timeout, for the fence.
    WaitFence,
    DiscardStaging { block: usize },
    DiscardVertex { block: usize },
    /// Wait for the device to go idle.
    WaitIdle,
    /// The upload is done: the device buffers hold the geometry.
    Done,
    /// The upload has failed and nothing of it is left.
    Abort(Error),
}

/// The upload's state, as contracts see it.
pub struct UploadState {
    /// The byte length of each source block.
    pub lengths: Seq<usize>,
    pub phase: UploadPhase,
    /// The block being worked on.
    pub cursor: int,
    /// Staging buffers that exist: those of the blocks below this number.
    pub staged: int,
    /// Device buffers that exist: those of the blocks below this number.
    pub vertices: int,
    /// Whether the device may still be copying.
    pub busy: bool,
}

impl UploadState {
    /// The state an upload of blocks of the given lengths starts in.
    pub open spec fn initial(lengths: Seq<usize>) -> Self {
        UploadState {
            lengths,
            phase: if lengths.len() == 0 {
                UploadPhase::Recording
            } else {
                UploadPhase::Staging
            },
            cursor: 0,
            staged: 0,
            vertices: 0,
            busy: false,
        }
    }

    /// Whether the upload has ended.
    pub open spec fn ended(self) -> bool {
        self.phase == UploadPhase::Done || self.phase is Failed
    }

    /// The state in which what is left of a failed upload is discarded:
    /// device buffers first, then staging buffers, then nothing.
    pub open spec fn unwinding(self, error: Error) -> Self {
        UploadState {
            phase: if self.vertices > 0 {
                UploadPhase::UnwindingVertex(error)
            } else if self.staged > 0 {
                UploadPhase::UnwindingStaging(error)
            } else {
                UploadPhase::Failed(error)
            },
            busy: false,
            ..self
        }
    }

    /// The state after `event`.
    pub open spec fn next(self, event: UploadEvent) -> Self {
        match self.phase {
            UploadPhase::Done | UploadPhase::Failed(_) => self,
            UploadPhase::Idling(error) => self.unwinding(error),
            UploadPhase::UnwindingVertex(error) => (UploadState {
                vertices: self.vertices - 1,
                ..self
            }).unwinding(error),
            UploadPhase::UnwindingStaging(error) => (UploadState {
                staged: self.staged - 1,
                ..self
            }).unwinding(error),
            _ => match event {
                UploadEvent::Failed(error) => if self.busy {
                    UploadState { phase: UploadPhase::Idling(error), ..self }
                } else {
                    self.unwinding(error)
                },
                UploadEvent::Completed => match self.phase {
                    UploadPhase::Staging => UploadState {
                        staged: self.staged + 1,
                        phase: UploadPhase::Filling,
                        ..self
                    },
                    UploadPhase::Filling => if self.cursor + 1 < self.lengths.len() {
                        UploadState {
                            cursor: self.cursor + 1,
                            phase: UploadPhase::Staging,
                            ..self
                        }
                    } else {
                        UploadState { cursor: 0, phase: UploadPhase::Allocating, ..self }
                    },
                    UploadPhase::Allocating => if self.cursor + 1 < self.lengths.len() {
                        UploadState {
                            cursor: self.cursor + 1,
                            vertices: self.vertices + 1,
                            ..self
                        }
                    } else {
                        UploadState {
                            cursor: 0,
                            vertices: self.vertices + 1,
                            phase: UploadPhase::Recording,
                            ..self
                        }
                    },
                    UploadPhase::Recording => UploadState { phase: UploadPhase::Fencing, ..self },
                    UploadPhase::Fencing => UploadState { phase: UploadPhase::Submitting, ..self },
                    UploadPhase::Submitting => UploadState {
                        phase: UploadPhase::Waiting,
                        busy: true,
                        ..self
                    },
                    UploadPhase::Waiting => UploadState {
                        phase: if self.staged > 0 {
                            UploadPhase::Discarding
                        } else {
                            UploadPhase::Done
                        },
                        busy: false,
                        ..self
                    },
                    _ => UploadState {
                        staged: self.staged - 1,
                        phase: if self.staged > 1 {
                            UploadPhase::Discarding
                        } else {
                            UploadPhase::Done
                        },
                        ..self
                    },
                },
            },
        }
    }

    /// The operation the upload is waiting for in this state.
    pub open spec fn action(self) -> UploadAction {
        match self.phase {
            UploadPhase::Staging => UploadAction::CreateStaging {
                block: self.cursor as usize,
                info: BufferCreateInfo {
                    size: self.lengths[self.cursor] as u64,
                    usage: USAGE_TRANSFER_SRC,
                },
                location: MemoryLocation::CpuToGpu,
            },
            UploadPhase::Filling => UploadAction::Fill { block: self.cursor as usize },
            UploadPhase::Allocating => UploadAction::CreateVertex {
                block: self.cursor as usize,
                info: BufferCreateInfo {
                    size: self.lengths[self.cursor] as u64,
                    usage: USAGE_INDEX_BUFFER | USAGE_VERTEX_BUFFER | USAGE_TRANSFER_DST,
                },
                location: MemoryLocation::GpuOnly,
            },
            UploadPhase::Recording => UploadAction::Record,
            UploadPhase::Fencing => UploadAction::CreateFence,
            UploadPhase::Submitting => UploadAction::Submit,
            UploadPhase::Waiting => UploadAction::WaitFence,
            UploadPhase::Discarding => UploadAction::DiscardStaging {
                block: (self.staged - 1) as usize,
            },
            UploadPhase::Idling(_) => UploadAction::WaitIdle,
            UploadPhase::UnwindingVertex(_) => UploadAction::DiscardVertex {
                block: (self.vertices - 1) as usize,
            },
            UploadPhase::UnwindingStaging(_) => UploadAction::DiscardStaging {
                block: (self.staged - 1) as usize,
            },
            UploadPhase::Done => UploadAction::Done,
            UploadPhase::Failed(error) => UploadAction::Abort(error),
        }
    }

    /// The state after a run of events.
    pub open spec fn after(self, events: Seq<UploadEvent>) -> Self
        decreases events.len(),
    {
        if events.len() == 0 {
            self
        } else {
            self.after(events.drop_last()).next(events.last())
        }
    }

    /// What the upload keeps true. The buffers that exist are those of the
    /// first blocks; nothing is discarded while the device may still be
    /// copying; an upload that is done has left every device buffer and no
    /// staging buffer, one that has failed has left nothing.
    pub open spec fn well_formed(self) -> bool {
        let n = self.lengths.len() as int;
        &&& 0 <= self.staged <= n
        &&& 0 <= self.vertices <= n
        &&& 0 <= self.cursor
        &&& match self.phase {
            UploadPhase::Staging => self.cursor < n && self.staged == self.cursor && self.vertices
                == 0 && !self.busy,
            UploadPhase::Filling => self.cursor < n && self.staged == self.cursor + 1
                && self.vertices == 0 && !self.busy,
            UploadPhase::Allocating => self.cursor < n && self.staged == n && self.vertices
                == self.cursor && !self.busy,
            UploadPhase::Recording | UploadPhase::Fencing | UploadPhase::Submitting => self.staged
                == n && self.vertices == n && !self.busy,
            UploadPhase::Waiting => self.staged == n && self.vertices == n && self.busy,
            UploadPhase::Discarding => self.staged > 0 && self.vertices == n && !self.busy,
            UploadPhase::Idling(_) => true,
            UploadPhase::UnwindingVertex(_) => self.vertices > 0 && !self.busy,
            UploadPhase::UnwindingStaging(_) => self.staged > 0 && self.vertices == 0
                && !self.busy,
            UploadPhase::Done => self.staged == 0 && self.vertices == n && !self.busy,
            UploadPhase::Failed(_) => self.staged == 0 && self.vertices == 0 && !self.busy,
        }
    }
}

/// The upload keeps itself: whatever is reported, a well-formed state is
/// followed by a well-formed state over the same blocks.
pub proof fn lemma_upload_next_well_formed(state: UploadState, event: UploadEvent)
    requires
        state.well_formed(),
    ensures
        state.next(event).well_formed(),
        state.next(event).lengths == state.lengths,
{
}

/// After any run of events the upload is well formed. So a buffer is
/// discarded only when the device is known to be done: after the wait for
/// the upload's fence, or after the idle wait that follows a failure; the
/// submission comes after every copy was recorded; an upload that is done
/// has left one device buffer for each block and no staging buffer; one that
/// has failed has left nothing.
pub proof fn lemma_upload_always_well_formed(lengths: Seq<usize>, events: Seq<UploadEvent>)
    ensures
        ({
            let state = UploadState::initial(lengths).after(events);
            &&& state.well_formed()
            &&& state.lengths == lengths
            &&& (state.action() is DiscardStaging || state.action() is DiscardVertex)
                ==> !state.busy
            &&& state.phase == UploadPhase::Done ==> state.vertices == lengths.len()
                && state.staged == 0
            &&& state.phase is Failed ==> state.vertices == 0 && state.staged == 0
        }),
    decreases events.len(),
{
    if events.len() > 0 {
        lemma_upload_always_well_formed(lengths, events.drop_last());
        lemma_upload_next_well_formed(
            UploadState::initial(lengths).after(events.drop_last()),
            events.last(),
        );
    }
}

/// Where nothing fails, the operations come in this order: for each block
/// its staging buffer is made and filled; then each block's device buffer
/// is made; then the copies are recorded, the fence made, the copies
/// submitted and the fence waited for; and only then the staging buffers are
/// discarded.
pub proof fn lemma_upload_order(state: UploadState)
    requires
        state.well_formed(),
    ensures
        ({
            let next = state.next(UploadEvent::Completed);
            match state.phase {
                UploadPhase::Staging => next.phase == UploadPhase::Filling && next.cursor
                    == state.cursor,
                UploadPhase::Filling => if state.cursor + 1 < state.lengths.len() {
                    next.phase == UploadPhase::Staging && next.cursor == state.cursor + 1
                } else {
                    next.phase == UploadPhase::Allocating && next.cursor == 0
                },
                UploadPhase::Allocating => if state.cursor + 1 < state.lengths.len() {
                    next.phase == UploadPhase::Allocating && next.cursor == state.cursor + 1
                } else {
                    next.phase == UploadPhase::Recording
                },
                UploadPhase::Recording => next.phase == UploadPhase::Fencing,
                UploadPhase::Fencing => next.phase == UploadPhase::Submitting,
                UploadPhase::Submitting => next.phase == UploadPhase::Waiting,
                UploadPhase::Waiting => next.phase == UploadPhase::Discarding || next.phase
                    == UploadPhase::Done,
                UploadPhase::Discarding => (next.phase == UploadPhase::Discarding || next.phase
                    == UploadPhase::Done) && next.staged == state.staged - 1,
                _ => true,
            }
        }),
{
}

/// The upload of a set of source blocks.
pub struct Upload {
    lengths: Vec<usize>,
    phase: UploadPhase,
    cursor: usize,
    staged: usize,
    vertices: usize,
    busy: bool,
}

impl View for Upload {
    type V = UploadState;

    closed spec fn view(&self) -> UploadState {
        UploadState {
            lengths: self.lengths@,
            phase: self.phase,
            cursor: self.cursor as int,
            staged: self.staged as int,
            vertices: self.vertices as int,
            busy: self.busy,
        }
    }
}

impl Upload {
    /// The upload of blocks of the given byte lengths.
    pub fn new(lengths: Vec<usize>) -> (upload: Self)
        ensures
            upload@ == UploadState::initial(lengths@),
            upload@.well_formed(),
    {
        let phase = if lengths.len() == 0 {
            UploadPhase::Recording
        } else {
            UploadPhase::Staging
        };
        Self { lengths, phase, cursor: 0, staged: 0, vertices: 0, busy: false }
    }

    pub fn phase(&self) -> (phase: UploadPhase)
        ensures
            phase == self@.phase,
    {
        self.phase
    }

    /// The number of staging buffers that exist.
    pub fn staging_buffers(&self) -> (count: usize)
        ensures
            count == self@.staged,
    {
        self.staged
    }

    /// The number of device buffers that exist.
    pub fn vertex_buffers(&self) -> (count: usize)
        ensures
            count == self@.vertices,
    {
        self.vertices
    }

    /// The way out of a failure, given what exists.
    fn unwind(&mut self, error: Error)
        ensures
            final(self)@ == old(self)@.unwinding(error),
    {
        self.busy = false;
        self.phase = if self.vertices > 0 {
            UploadPhase::UnwindingVertex(error)
        } else if self.staged > 0 {
            UploadPhase::UnwindingStaging(error)
        } else {
            UploadPhase::Failed(error)
        };
    }

    /// The operation the upload is waiting for.
    pub fn action(&self) -> (action: UploadAction)
        requires
            self@.well_formed(),
        ensures
            action == self@.action(),
    {
        match self.phase {
            UploadPhase::Staging => UploadAction::CreateStaging {
                block: self.cursor,
                info: staging_buffer_info(self.lengths[self.cursor]),
                location: staging_buffer_location(),
            },
            UploadPhase::Filling => UploadAction::Fill { block: self.cursor },
            UploadPhase::Allocating => UploadAction::CreateVertex {
                block: self.cursor,
                info: vertex_buffer_info(self.lengths[self.cursor]),
                location: vertex_buffer_location(),
            },
            UploadPhase::Recording => UploadAction::Record,
            UploadPhase::Fencing => UploadAction::CreateFence,
            UploadPhase::Submitting => UploadAction::Submit,
            UploadPhase::Waiting => UploadAction::WaitFence,
            UploadPhase::Discarding => UploadAction::DiscardStaging { block: self.staged - 1 },
            UploadPhase::Idling(_) => UploadAction::WaitIdle,
            UploadPhase::UnwindingVertex(_) => UploadAction::DiscardVertex {
                block: self.vertices - 1,
            },
            UploadPhase::UnwindingStaging(_) => UploadAction::DiscardStaging {
                block: self.staged - 1,
            },
            UploadPhase::Done => UploadAction::Done,
            UploadPhase::Failed(error) => UploadAction::Abort(error),
        }
    }

    /// Takes note of how the operation asked for ended and says what to do
    /// next.
    pub fn step(&mut self, event: UploadEvent) -> (action: UploadAction)
        requires
            old(self)@.well_formed(),
        ensures
            final(self)@ == old(self)@.next(event),
            final(self)@.well_formed(),
            action == final(self)@.action(),
    {
        proof {
            lemma_upload_next_well_formed(self@, event);
        }
        let count: usize = self.lengths.len();
        match self.phase {
            UploadPhase::Done => {},
            UploadPhase::Failed(_) => {},
            UploadPhase::Idling(error) => {
                self.unwind(error);
            },
            UploadPhase::UnwindingVertex(error) => {
                self.vertices = self.vertices - 1;
                self.unwind(error);
            },
            UploadPhase::UnwindingStaging(error) => {
                self.staged = self.staged - 1;
                self.unwind(error);
            },
            _ => match event {
                UploadEvent::Failed(error) => {
                    if self.busy {
                        self.phase = UploadPhase::Idling(error);
                    } else {
                        self.unwind(error);
                    }
                },
                UploadEvent::Completed => match self.phase {
                    UploadPhase::Staging => {
                        self.staged = self.staged + 1;
                        self.phase = UploadPhase::Filling;
                    },
                    UploadPhase::Filling => {
                        if self.cursor + 1 < count {
                            self.cursor = self.cursor + 1;
                            self.phase = UploadPhase::Staging;
                        } else {
                            self.cursor = 0;
                            self.phase = UploadPhase::Allocating;
                        }
                    },
                    UploadPhase::Allocating => {
                        self.vertices = self.vertices + 1;
                        if self.cursor + 1 < count {
                            self.cursor = self.cursor + 1;
                        } else {
                            self.cursor = 0;
                            self.phase = UploadPhase::Recording;
                        }
                    },
                    UploadPhase::Recording => {
                        self.phase = UploadPhase::Fencing;
                    },
                    UploadPhase::Fencing => {
                        self.phase = UploadPhase::Submitting;
                    },
                    UploadPhase::Submitting => {
                        self.busy = true;
                        self.phase = UploadPhase::Waiting;
                    },
                    UploadPhase::Waiting => {
                        self.busy = false;
                        self.phase = if self.staged > 0 {
                            UploadPhase::Discarding
                        } else {
                            UploadPhase::Done
                        };
                    },
                    _ => {
                        self.phase = if self.staged > 1 {
                            UploadPhase::Discarding
                        } else {
                            UploadPhase::Done
                        };
                        self.staged = self.staged - 1;
                    },
                },
            },
        }
        self.action()
    }
}

} // verus!
