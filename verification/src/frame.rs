//! The steady-state frame protocol: which device operation comes next, given
//! how the last one ended.
//!
//! The loop works on a ring of per-frame synchronisation sets, one for each
//! presentable image. Whoever drives the device performs the action the loop
//! asks for and reports how it ended; the loop never touches the device.

use vstd::prelude::*;
use crate::buffer::Buffer;
use crate::command_pool::{CommandBuffer, RecordingState};
use crate::error::{Error, SynchronizationError};
use crate::frame_buffer::FrameBuffer;
use crate::swapchain::Swapchain;
use crate::fence::{Fence, FenceState};
use crate::semaphore::Semaphore;

verus! {

/// Pipeline stage at which a frame's submission waits for its image.
pub const STAGE_COLOR_ATTACHMENT_OUTPUT: u32 = 0x400;

/// The synchronisation objects of one slot of the ring.
#[derive(Clone, Copy, Debug, PartialEq, Eq, Structural)]
pub struct FrameResources {
    pub image_available_semaphore: Semaphore,
    pub render_done_semaphore: Semaphore,
    pub render_done_fence: Fence,
}

impl FrameResources {
    /// A slot whose fence, with handle `fence`, was created signaled, so
    /// that the first wait on it does not block.
    pub fn new(image_available_semaphore: Semaphore, render_done_semaphore: Semaphore, fence: u64) -> (slot:
        Self)
        ensures
            slot.image_available_semaphore == image_available_semaphore,
            slot.render_done_semaphore == render_done_semaphore,
            slot.render_done_fence.id() == fence,
            slot.render_done_fence.status() == FenceState::Signaled,
    {
        Self {
            image_available_semaphore,
            render_done_semaphore,
            render_done_fence: Fence::new(fence, true),
        }
    }

    /// The slot with its fence in another state.
    pub open spec fn with_fence(self, state: FenceState) -> Self {
        FrameResources { render_done_fence: self.render_done_fence.with_status(state), ..self }
    }

    /// Whether a submission made with this slot has not been waited for yet.
    pub open spec fn in_flight(self) -> bool {
        self.render_done_fence.status() == FenceState::Armed
    }
}

/// The operation whose result the loop is waiting for.
#[derive(Clone, Copy, Debug, PartialEq, Eq, Structural)]
pub enum FramePhase {
    Polling,
    Waiting,
    Resetting,
    Acquiring,
    Updating,
    Submitting,
    Presenting,
    Draining,
    /// A failure has ended the frames; the device is let go idle before the
    /// loop ends with the failure.
    Aborting(Error),
    Finished,
    Failed(Error),
}

/// How the operation last asked for ended.
#[derive(Clone, Copy, Debug, PartialEq, Eq, Structural)]
pub enum FrameEvent {
    /// The control channel was drained; `stop` says whether a stop request
    /// was in it.
    Polled { stop: bool },
    /// The operation succeeded and has nothing to report.
    Completed,
    /// The next presentable image is `image`.
    Acquired { image: u32, suboptimal: bool },
    /// The operation failed.
    Failed(Error),
}

/// What to do next.
#[derive(Clone, Copy, Debug, PartialEq, Eq, Structural)]
pub enum FrameAction {
    /// Drain the control channel without blocking.
    Poll,
    /// Wait, without timeout, for the fence.
    WaitFence { fence: u64 },
    ResetFence { fence: u64 },
    /// Acquire the next presentable image, signaling the semaphore.
    Acquire { semaphore: u64 },
    /// Write the per-frame uniform state into the buffer of `slot` and flush.
    UpdateUniform { slot: usize, buffer: u64 },
    /// Submit the commands recorded for `image`.
    Submit {
        image: u32,
        command_buffer: u64,
        wait_semaphore: u64,
        wait_stage: u32,
        signal_semaphore: u64,
        fence: u64,
    },
    Present { image: u32, wait_semaphore: u64 },
    /// Wait for the device to go idle; nothing may be destroyed before.
    WaitIdle,
    /// The loop has ended in good order.
    Exit,
    /// The loop has ended with an error.
    Abort(Error),
}

/// The loop's state, as contracts see it.
pub struct FrameState {
    pub ring: Seq<FrameResources>,
    /// The command buffer recorded for each presentable image.
    pub command_buffers: Seq<u64>,
    /// The uniform buffer of each slot.
    pub uniform_buffers: Seq<u64>,
    pub index: int,
    pub stop: bool,
    pub phase: FramePhase,
    pub image: u32,
    /// Submissions made so far.
    pub submitted: nat,
    /// Submissions known to have completed, by a wait on their fence.
    pub retired: nat,
}

/// The number of slots with a submission in flight.
pub open spec fn in_flight_count(ring: Seq<FrameResources>) -> nat
    decreases ring.len(),
{
    if ring.len() == 0 {
        0
    } else {
        in_flight_count(ring.drop_last()) + if ring.last().in_flight() {
            1nat
        } else {
            0nat
        }
    }
}

impl FrameState {
    /// The slot in use.
    pub open spec fn slot(self) -> FrameResources {
        self.ring[self.index]
    }

    /// The state with the fence of the slot in use in another state.
    pub open spec fn with_fence(self, state: FenceState) -> Self {
        FrameState { ring: self.ring.update(self.index, self.slot().with_fence(state)), ..self }
    }

    /// The state in another phase.
    pub open spec fn in_phase(self, phase: FramePhase) -> Self {
        FrameState { phase, ..self }
    }

    /// The state the loop starts in.
    pub open spec fn initial(
        ring: Seq<FrameResources>,
        command_buffers: Seq<u64>,
        uniform_buffers: Seq<u64>,
    ) -> Self {
        FrameState {
            ring,
            command_buffers,
            uniform_buffers,
            index: 0,
            stop: false,
            phase: FramePhase::Polling,
            image: 0,
            submitted: 0,
            retired: 0,
        }
    }

    /// Whether the loop has ended.
    pub open spec fn ended(self) -> bool {
        self.phase == FramePhase::Finished || self.phase is Failed
    }

    /// Whether frames are still being made.
    pub open spec fn running(self) -> bool {
        !self.ended() && !(self.phase is Aborting)
    }

    /// The state after `event`. A failure ends the frames, but not the loop:
    /// the device is let go idle first, and the loop ends with the failure on
    /// the report of that wait, whatever it says. Where the idle wait of an
    /// orderly stop fails, the loop ends with that failure.
    pub open spec fn next(self, event: FrameEvent) -> Self {
        if self.ended() {
            self
        } else if let FramePhase::Aborting(error) = self.phase {
            self.in_phase(FramePhase::Failed(error))
        } else if let FrameEvent::Failed(error) = event {
            if self.phase == FramePhase::Draining {
                self.in_phase(FramePhase::Failed(error))
            } else {
                self.in_phase(FramePhase::Aborting(error))
            }
        } else {
            match (self.phase, event) {
                (FramePhase::Polling, FrameEvent::Polled { stop }) => FrameState {
                    stop,
                    phase: FramePhase::Waiting,
                    ..self
                },
                (FramePhase::Waiting, FrameEvent::Completed) => FrameState {
                    retired: if self.slot().in_flight() {
                        self.retired + 1
                    } else {
                        self.retired
                    },
                    phase: FramePhase::Resetting,
                    ..self.with_fence(FenceState::Signaled)
                },
                (FramePhase::Resetting, FrameEvent::Completed) => self.with_fence(
                    FenceState::Unsignaled,
                ).in_phase(FramePhase::Acquiring),
                (FramePhase::Acquiring, FrameEvent::Acquired { image, suboptimal }) => if image
                    < self.ring.len() {
                    FrameState { image, phase: FramePhase::Updating, ..self }
                } else {
                    self.in_phase(
                        FramePhase::Aborting(Error::Synchronization(SynchronizationError::Acquire)),
                    )
                },
                (FramePhase::Updating, FrameEvent::Completed) => self.in_phase(
                    FramePhase::Submitting,
                ),
                (FramePhase::Submitting, FrameEvent::Completed) => FrameState {
                    submitted: self.submitted + 1,
                    phase: FramePhase::Presenting,
                    ..self.with_fence(FenceState::Armed)
                },
                (FramePhase::Presenting, FrameEvent::Completed) => FrameState {
                    index: (self.index + 1) % (self.ring.len() as int),
                    phase: if self.stop {
                        FramePhase::Draining
                    } else {
                        FramePhase::Polling
                    },
                    ..self
                },
                (FramePhase::Draining, FrameEvent::Completed) => self.in_phase(
                    FramePhase::Finished,
                ),
                _ => self.in_phase(
                    FramePhase::Aborting(Error::Synchronization(SynchronizationError::OutOfOrder)),
                ),
            }
        }
    }

    /// The operation the loop is waiting for in this state.
    pub open spec fn action(self) -> FrameAction {
        match self.phase {
            FramePhase::Polling => FrameAction::Poll,
            FramePhase::Waiting => FrameAction::WaitFence { fence: self.slot().render_done_fence.id() },
            FramePhase::Resetting => FrameAction::ResetFence {
                fence: self.slot().render_done_fence.id(),
            },
            FramePhase::Acquiring => FrameAction::Acquire {
                semaphore: self.slot().image_available_semaphore.id(),
            },
            FramePhase::Updating => FrameAction::UpdateUniform {
                slot: self.index as usize,
                buffer: self.uniform_buffers[self.index],
            },
            FramePhase::Submitting => FrameAction::Submit {
                image: self.image,
                command_buffer: self.command_buffers[self.image as int],
                wait_semaphore: self.slot().image_available_semaphore.id(),
                wait_stage: STAGE_COLOR_ATTACHMENT_OUTPUT,
                signal_semaphore: self.slot().render_done_semaphore.id(),
                fence: self.slot().render_done_fence.id(),
            },
            FramePhase::Presenting => FrameAction::Present {
                image: self.image,
                wait_semaphore: self.slot().render_done_semaphore.id(),
            },
            FramePhase::Draining => FrameAction::WaitIdle,
            FramePhase::Aborting(_) => FrameAction::WaitIdle,
            FramePhase::Finished => FrameAction::Exit,
            FramePhase::Failed(error) => FrameAction::Abort(error),
        }
    }

    /// The state after a run of events.
    pub open spec fn after(self, events: Seq<FrameEvent>) -> Self
        decreases events.len(),
    {
        if events.len() == 0 {
            self
        } else {
            self.after(events.drop_last()).next(events.last())
        }
    }

    /// What the protocol keeps true. There is one command buffer and one
    /// uniform buffer for each slot. The counts agree with the fences; a
    /// fence is waited for only if it is signaled or will be; it is reset
    /// only once signaled; a submission is made only with the slot's fence
    /// unsignaled, that is, after its earlier submission has retired.
    pub open spec fn well_formed(self) -> bool {
        &&& self.ring.len() > 0
        &&& self.command_buffers.len() == self.ring.len()
        &&& self.uniform_buffers.len() == self.ring.len()
        &&& 0 <= self.index < self.ring.len()
        &&& self.submitted == self.retired + in_flight_count(self.ring)
        &&& self.running() ==> {
            &&& forall|j: int|
                0 <= j < self.ring.len() && j != self.index
                    ==> (#[trigger] self.ring[j]).render_done_fence.status()
                    != FenceState::Unsignaled
            &&& match self.phase {
                FramePhase::Polling | FramePhase::Waiting | FramePhase::Draining =>
                    self.slot().render_done_fence.status() != FenceState::Unsignaled,
                FramePhase::Resetting => self.slot().render_done_fence.status()
                    == FenceState::Signaled,
                FramePhase::Acquiring => self.slot().render_done_fence.status()
                    == FenceState::Unsignaled,
                FramePhase::Updating | FramePhase::Submitting =>
                    self.slot().render_done_fence.status() == FenceState::Unsignaled && self.image
                        < self.ring.len(),
                FramePhase::Presenting => self.slot().in_flight() && self.image < self.ring.len(),
                _ => true,
            }
        }
    }
}

/// Putting another slot in place of slot `i` changes the in-flight count by
/// what the two slots differ in.
pub proof fn lemma_in_flight_update(ring: Seq<FrameResources>, i: int, slot: FrameResources)
    requires
        0 <= i < ring.len(),
    ensures
        in_flight_count(ring.update(i, slot)) + (if ring[i].in_flight() {
            1nat
        } else {
            0nat
        }) == in_flight_count(ring) + (if slot.in_flight() {
            1nat
        } else {
            0nat
        }),
    decreases ring.len(),
{
    let updated = ring.update(i, slot);
    if i == ring.len() - 1 {
        assert(updated.drop_last() =~= ring.drop_last());
    } else {
        assert(updated.drop_last() =~= ring.drop_last().update(i, slot));
        lemma_in_flight_update(ring.drop_last(), i, slot);
    }
}

/// No more slots are in flight than there are slots, and fewer where some
/// slot is not.
pub proof fn lemma_in_flight_bound(ring: Seq<FrameResources>)
    ensures
        in_flight_count(ring) <= ring.len(),
        (exists|i: int| 0 <= i < ring.len() && !(#[trigger] ring[i]).in_flight())
            ==> in_flight_count(ring) < ring.len(),
    decreases ring.len(),
{
    if ring.len() > 0 {
        lemma_in_flight_bound(ring.drop_last());
        if exists|i: int| 0 <= i < ring.len() && !(#[trigger] ring[i]).in_flight() {
            let i = choose|i: int| 0 <= i < ring.len() && !(#[trigger] ring[i]).in_flight();
            if i < ring.len() - 1 {
                assert(!ring.drop_last()[i].in_flight());
            }
        }
    }
}

/// A ring whose fences are all signaled has nothing in flight.
pub proof fn lemma_nothing_in_flight(ring: Seq<FrameResources>)
    requires
        forall|i: int|
            0 <= i < ring.len() ==> (#[trigger] ring[i]).render_done_fence.status()
                == FenceState::Signaled,
    ensures
        in_flight_count(ring) == 0,
    decreases ring.len(),
{
    if ring.len() > 0 {
        lemma_in_flight_update(ring, 0, ring[0]);
        lemma_nothing_in_flight(ring.drop_last());
    }
}

/// The protocol keeps itself: whatever is reported, a well-formed state is
/// followed by a well-formed state over the same slots.
pub proof fn lemma_next_well_formed(state: FrameState, event: FrameEvent)
    requires
        state.well_formed(),
    ensures
        state.next(event).well_formed(),
        state.next(event).ring.len() == state.ring.len(),
        state.next(event).command_buffers == state.command_buffers,
        state.next(event).uniform_buffers == state.uniform_buffers,
{
    broadcast use Fence::lemma_with_status;

    let next = state.next(event);
    if !state.running() || event is Failed {
    } else {
        match (state.phase, event) {
            (FramePhase::Waiting, FrameEvent::Completed) => {
                lemma_in_flight_update(
                    state.ring,
                    state.index,
                    state.slot().with_fence(FenceState::Signaled),
                );
            },
            (FramePhase::Resetting, FrameEvent::Completed) => {
                lemma_in_flight_update(
                    state.ring,
                    state.index,
                    state.slot().with_fence(FenceState::Unsignaled),
                );
            },
            (FramePhase::Submitting, FrameEvent::Completed) => {
                lemma_in_flight_update(
                    state.ring,
                    state.index,
                    state.slot().with_fence(FenceState::Armed),
                );
            },
            (FramePhase::Presenting, FrameEvent::Completed) => {
                assert(0 <= next.index < state.ring.len()) by (nonlinear_arith)
                    requires
                        next.index == (state.index + 1) % (state.ring.len() as int),
                        state.ring.len() > 0,
                        0 <= state.index,
                ;
            },
            _ => {},
        }
    }
}

/// Whether a loop can be started on the ring: it has a slot, one command
/// buffer and one uniform buffer for each slot, and every fence is signaled.
pub open spec fn startable(
    ring: Seq<FrameResources>,
    command_buffers: Seq<u64>,
    uniform_buffers: Seq<u64>,
) -> bool {
    &&& ring.len() > 0
    &&& command_buffers.len() == ring.len()
    &&& uniform_buffers.len() == ring.len()
    &&& all_signaled(ring)
}

/// Started on a ring of signaled fences, the loop is well formed after any
/// run of events.
pub proof fn lemma_always_well_formed(
    ring: Seq<FrameResources>,
    command_buffers: Seq<u64>,
    uniform_buffers: Seq<u64>,
    events: Seq<FrameEvent>,
)
    requires
        startable(ring, command_buffers, uniform_buffers),
    ensures
        FrameState::initial(ring, command_buffers, uniform_buffers).after(events).well_formed(),
        FrameState::initial(ring, command_buffers, uniform_buffers).after(events).ring.len()
            == ring.len(),
    decreases events.len(),
{
    let start = FrameState::initial(ring, command_buffers, uniform_buffers);
    if events.len() == 0 {
        lemma_nothing_in_flight(ring);
    } else {
        lemma_always_well_formed(ring, command_buffers, uniform_buffers, events.drop_last());
        lemma_next_well_formed(start.after(events.drop_last()), events.last());
    }
}

/// Backpressure: after any run of events, the submissions not yet retired
/// number at most the size of the ring, and whenever the loop asks for a
/// submission they number less, so no submission is made beyond the ring
/// size before an earlier one has retired. Whenever the loop asks for the
/// uniform state of a slot to be written or for a submission with it, the
/// slot's earlier submission has retired.
pub proof fn lemma_frames_in_flight_bounded(
    ring: Seq<FrameResources>,
    command_buffers: Seq<u64>,
    uniform_buffers: Seq<u64>,
    events: Seq<FrameEvent>,
)
    requires
        startable(ring, command_buffers, uniform_buffers),
    ensures
        ({
            let state = FrameState::initial(ring, command_buffers, uniform_buffers).after(events);
            &&& state.retired <= state.submitted
            &&& state.submitted - state.retired <= ring.len()
            &&& state.phase == FramePhase::Submitting ==> state.submitted - state.retired
                < ring.len()
            &&& state.phase == FramePhase::Updating || state.phase == FramePhase::Submitting
                ==> !state.slot().in_flight()
        }),
{
    let state = FrameState::initial(ring, command_buffers, uniform_buffers).after(events);
    lemma_always_well_formed(ring, command_buffers, uniform_buffers, events);
    lemma_in_flight_bound(state.ring);
    if state.phase == FramePhase::Submitting {
        assert(!state.ring[state.index].in_flight());
    }
}

/// The loop ends only on the report of an idle wait: whenever a step takes
/// a loop that has not ended to its end, in good order or with a failure,
/// what the loop had asked for was to wait for the device to go idle. So
/// nothing is destroyed while the device still works, on any way out.
pub proof fn lemma_ends_only_after_idle_wait(state: FrameState, event: FrameEvent)
    requires
        !state.ended(),
        state.next(event).ended(),
    ensures
        state.action() == FrameAction::WaitIdle,
        match state.phase {
            FramePhase::Aborting(error) => state.next(event).phase == FramePhase::Failed(error),
            FramePhase::Draining => match event {
                FrameEvent::Failed(error) => state.next(event).phase == FramePhase::Failed(error),
                _ => state.next(event).phase == FramePhase::Finished,
            },
            _ => false,
        },
{
}

/// A failure is never swallowed: once a step has been reported as failed,
/// the loop asks for the idle wait and then ends with that very failure.
pub proof fn lemma_failure_is_kept(state: FrameState, error: Error, report: FrameEvent)
    requires
        state.running(),
    ensures
        ({
            let failed = state.next(FrameEvent::Failed(error));
            if state.phase == FramePhase::Draining {
                failed.phase == FramePhase::Failed(error)
            } else {
                &&& failed.phase == FramePhase::Aborting(error)
                &&& failed.action() == FrameAction::WaitIdle
                &&& failed.next(report).phase == FramePhase::Failed(error)
                &&& failed.next(report).action() == FrameAction::Abort(error)
            }
        }),
{
}

/// The frame loop: the ring, the slot in use and the operation under way.
pub struct FrameLoop {
    resources: Vec<FrameResources>,
    command_buffers: Vec<u64>,
    uniform_buffers: Vec<u64>,
    current_index: usize,
    stop: bool,
    phase: FramePhase,
    image: u32,
    submitted: Ghost<nat>,
    retired: Ghost<nat>,
}

impl View for FrameLoop {
    type V = FrameState;

    closed spec fn view(&self) -> FrameState {
        FrameState {
            ring: self.resources@,
            command_buffers: self.command_buffers@,
            uniform_buffers: self.uniform_buffers@,
            index: self.current_index as int,
            stop: self.stop,
            phase: self.phase,
            image: self.image,
            submitted: self.submitted@,
            retired: self.retired@,
        }
    }
}

/// Whether every fence of the ring is signaled.
pub open spec fn all_signaled(ring: Seq<FrameResources>) -> bool {
    forall|i: int|
        0 <= i < ring.len() ==> (#[trigger] ring[i]).render_done_fence.status()
            == FenceState::Signaled
}

/// Whether everything that is made once for each presentable image is
/// there `count` times, `count` being at least one, the command buffers
/// ready to submit and every fence signaled.
pub open spec fn per_image(
    count: nat,
    command_buffers: Seq<CommandBuffer>,
    framebuffers: Seq<FrameBuffer>,
    uniform_buffers: Seq<Buffer>,
    resources: Seq<FrameResources>,
) -> bool {
    &&& count > 0
    &&& command_buffers.len() == count
    &&& framebuffers.len() == count
    &&& uniform_buffers.len() == count
    &&& resources.len() == count
    &&& all_signaled(resources)
    &&& forall|i: int|
        0 <= i < command_buffers.len() ==> (#[trigger] command_buffers[i]).status()
            == RecordingState::Executable
}

impl FrameLoop {
    /// The loop for `swapchain`, over one slot for each of its presentable
    /// images. There must be as many command buffers, framebuffers, uniform
    /// buffers and slots as the swapchain has images, and at least one; the
    /// command buffers must be ready to submit, and every fence signaled,
    /// for the first wait on an unsignaled one would not return. Else there
    /// is no loop.
    pub fn new(
        swapchain: &Swapchain,
        command_buffers: &Vec<CommandBuffer>,
        framebuffers: &Vec<FrameBuffer>,
        uniform_buffers: &Vec<Buffer>,
        resources: Vec<FrameResources>,
    ) -> (started: Option<Self>)
        ensures
            started.is_some() <==> per_image(
                swapchain.views().len(),
                command_buffers@,
                framebuffers@,
                uniform_buffers@,
                resources@,
            ),
            started matches Some(frame_loop) ==> frame_loop@ == FrameState::initial(
                resources@,
                Seq::new(command_buffers@.len(), |i: int| command_buffers@[i].id()),
                Seq::new(uniform_buffers@.len(), |i: int| uniform_buffers@[i].id()),
            ) && frame_loop@.well_formed() && frame_loop@.ring.len() == swapchain.views().len(),
    {
        let count: usize = swapchain.image_count();
        if count == 0 || command_buffers.len() != count || framebuffers.len() != count
            || uniform_buffers.len() != count || resources.len() != count {
            return None;
        }
        let mut command_handles: Vec<u64> = Vec::new();
        let mut uniform_handles: Vec<u64> = Vec::new();
        let mut i: usize = 0;
        while i < count
            invariant
                i <= count,
                count == resources@.len(),
                count == command_buffers@.len(),
                count == uniform_buffers@.len(),
                command_handles@.len() == i,
                uniform_handles@.len() == i,
                forall|j: int|
                    0 <= j < i ==> (#[trigger] resources@[j]).render_done_fence.status()
                        == FenceState::Signaled,
                forall|j: int|
                    0 <= j < i ==> (#[trigger] command_buffers@[j]).status()
                        == RecordingState::Executable,
                forall|j: int| 0 <= j < i ==> command_handles@[j] == command_buffers@[j].id(),
                forall|j: int| 0 <= j < i ==> uniform_handles@[j] == uniform_buffers@[j].id(),
            decreases count - i,
        {
            if resources[i].render_done_fence.state() != FenceState::Signaled {
                return None;
            }
            match command_buffers[i].state() {
                RecordingState::Executable => {},
                _ => {
                    return None;
                },
            }
            command_handles.push(command_buffers[i].handle());
            uniform_handles.push(uniform_buffers[i].handle());
            i += 1;
        }
        proof {
            lemma_nothing_in_flight(resources@);
            assert(command_handles@ =~= Seq::new(
                command_buffers@.len(),
                |i: int| command_buffers@[i].id(),
            ));
            assert(uniform_handles@ =~= Seq::new(
                uniform_buffers@.len(),
                |i: int| uniform_buffers@[i].id(),
            ));
        }
        Some(
            Self {
                resources,
                command_buffers: command_handles,
                uniform_buffers: uniform_handles,
                current_index: 0,
                stop: false,
                phase: FramePhase::Polling,
                image: 0,
                submitted: Ghost(0),
                retired: Ghost(0),
            },
        )
    }

    /// The number of slots.
    pub fn ring_size(&self) -> (size: usize)
        ensures
            size == self@.ring.len(),
    {
        self.resources.len()
    }

    /// The slot in use.
    pub fn current_index(&self) -> (index: usize)
        ensures
            index == self@.index,
    {
        self.current_index
    }

    pub fn phase(&self) -> (phase: FramePhase)
        ensures
            phase == self@.phase,
    {
        self.phase
    }

    /// Whether a stop was requested during the frame under way.
    pub fn stop_requested(&self) -> (stop: bool)
        ensures
            stop == self@.stop,
    {
        self.stop
    }

    /// The synchronisation objects of each slot, with the fences as the loop
    /// knows them.
    pub fn resources(&self) -> (resources: &Vec<FrameResources>)
        ensures
            resources@ == self@.ring,
    {
        &self.resources
    }

    /// The number of slots with a submission that has not been waited for.
    pub fn frames_in_flight(&self) -> (count: usize)
        ensures
            count == in_flight_count(self@.ring),
    {
        let mut count: usize = 0;
        let mut i: usize = 0;
        while i < self.resources.len()
            invariant
                i <= self.resources@.len(),
                count == in_flight_count(self.resources@.take(i as int)),
                count <= i,
            decreases self.resources@.len() - i,
        {
            proof {
                assert(self.resources@.take(i + 1).drop_last() =~= self.resources@.take(i as int));
            }
            if self.resources[i].render_done_fence.state() == FenceState::Armed {
                count += 1;
            }
            i += 1;
        }
        proof {
            assert(self.resources@.take(i as int) =~= self.resources@);
        }
        count
    }

    /// The operation the loop is waiting for.
    pub fn action(&self) -> (action: FrameAction)
        requires
            self@.well_formed(),
        ensures
            action == self@.action(),
    {
        let slot = self.resources[self.current_index];
        match self.phase {
            FramePhase::Polling => FrameAction::Poll,
            FramePhase::Waiting => FrameAction::WaitFence { fence: slot.render_done_fence.handle() },
            FramePhase::Resetting => FrameAction::ResetFence {
                fence: slot.render_done_fence.handle(),
            },
            FramePhase::Acquiring => FrameAction::Acquire {
                semaphore: slot.image_available_semaphore.handle(),
            },
            FramePhase::Updating => FrameAction::UpdateUniform {
                slot: self.current_index,
                buffer: self.uniform_buffers[self.current_index],
            },
            FramePhase::Submitting => FrameAction::Submit {
                image: self.image,
                command_buffer: self.command_buffers[self.image as usize],
                wait_semaphore: slot.image_available_semaphore.handle(),
                wait_stage: STAGE_COLOR_ATTACHMENT_OUTPUT,
                signal_semaphore: slot.render_done_semaphore.handle(),
                fence: slot.render_done_fence.handle(),
            },
            FramePhase::Presenting => FrameAction::Present {
                image: self.image,
                wait_semaphore: slot.render_done_semaphore.handle(),
            },
            FramePhase::Draining => FrameAction::WaitIdle,
            FramePhase::Aborting(_) => FrameAction::WaitIdle,
            FramePhase::Finished => FrameAction::Exit,
            FramePhase::Failed(error) => FrameAction::Abort(error),
        }
    }

    /// Takes note of how the operation asked for ended and says what to do
    /// next.
    pub fn step(&mut self, event: FrameEvent) -> (action: FrameAction)
        requires
            old(self)@.well_formed(),
        ensures
            final(self)@ == old(self)@.next(event),
            final(self)@.well_formed(),
            action == final(self)@.action(),
    {
        proof {
            lemma_next_well_formed(self@, event);
        }
        let ended = match self.phase {
            FramePhase::Finished => true,
            FramePhase::Failed(_) => true,
            _ => false,
        };
        if !ended {
            let mut slot = self.resources[self.current_index];
            match (self.phase, event) {
                (FramePhase::Aborting(error), _) => {
                    self.phase = FramePhase::Failed(error);
                },
                (FramePhase::Draining, FrameEvent::Failed(error)) => {
                    self.phase = FramePhase::Failed(error);
                },
                (_, FrameEvent::Failed(error)) => {
                    self.phase = FramePhase::Aborting(error);
                },
                (FramePhase::Polling, FrameEvent::Polled { stop }) => {
                    self.stop = stop;
                    self.phase = FramePhase::Waiting;
                },
                (FramePhase::Waiting, FrameEvent::Completed) => {
                    proof {
                        if slot.in_flight() {
                            self.retired = Ghost(self.retired@ + 1);
                        }
                    }
                    let _ = slot.render_done_fence.waited(Ok(()));
                    self.resources.set(self.current_index, slot);
                    self.phase = FramePhase::Resetting;
                },
                (FramePhase::Resetting, FrameEvent::Completed) => {
                    let _ = slot.render_done_fence.reset(Ok(()));
                    self.resources.set(self.current_index, slot);
                    self.phase = FramePhase::Acquiring;
                },
                (FramePhase::Acquiring, FrameEvent::Acquired { image, suboptimal }) => {
                    if (image as usize) < self.resources.len() {
                        self.image = image;
                        self.phase = FramePhase::Updating;
                    } else {
                        self.phase = FramePhase::Aborting(
                            Error::Synchronization(SynchronizationError::Acquire),
                        );
                    }
                },
                (FramePhase::Updating, FrameEvent::Completed) => {
                    self.phase = FramePhase::Submitting;
                },
                (FramePhase::Submitting, FrameEvent::Completed) => {
                    proof {
                        self.submitted = Ghost(self.submitted@ + 1);
                    }
                    slot.render_done_fence.arm();
                    self.resources.set(self.current_index, slot);
                    self.phase = FramePhase::Presenting;
                },
                (FramePhase::Presenting, FrameEvent::Completed) => {
                    let ring_size: usize = self.resources.len();
                    self.current_index = (self.current_index + 1) % ring_size;
                    self.phase = if self.stop {
                        FramePhase::Draining
                    } else {
                        FramePhase::Polling
                    };
                },
                (FramePhase::Draining, FrameEvent::Completed) => {
                    self.phase = FramePhase::Finished;
                },
                _ => {
                    self.phase = FramePhase::Aborting(
                        Error::Synchronization(SynchronizationError::OutOfOrder),
                    );
                },
            }
        }
        assert(self@.ring =~= old(self)@.next(event).ring);
        self.action()
    }
}

} // verus!
