//! Fences: what the host knows of work handed to the device.

use vstd::prelude::*;
use crate::error::SynchronizationError;

verus! {

/// Creation flag: the fence starts out signaled.
pub const FENCE_CREATE_SIGNALED: u32 = 1;

/// What the host knows about a fence.
#[derive(Clone, Copy, Debug, PartialEq, Eq, Structural)]
pub enum FenceState {
    /// Not signaled, and nothing submitted will signal it: a wait without
    /// timeout would never return.
    Unsignaled,
    /// A submission will signal it when the device is done.
    Armed,
    /// Signaled: a wait returns at once.
    Signaled,
}

/// A wait for a fence.
#[derive(Clone, Copy, Debug, PartialEq, Eq, Structural)]
pub struct FenceWaitInfo {
    pub fence: u64,
    /// Whether every fence waited for must be signaled; there is one only.
    pub wait_all: bool,
    /// How long to wait at most, in nanoseconds.
    pub timeout: u64,
}

/// A fence and the state the host last left it in.
#[derive(Clone, Copy, Debug, PartialEq, Eq, Structural)]
pub struct Fence {
    handle: u64,
    state: FenceState,
}

impl Fence {
    /// The fence's handle.
    pub closed spec fn id(&self) -> u64 {
        self.handle
    }

    /// What the host knows about the fence.
    pub closed spec fn status(&self) -> FenceState {
        self.state
    }

    /// The flags to create a fence with.
    pub fn create_flags(signaled: bool) -> (flags: u32)
        ensures
            flags == if signaled {
                FENCE_CREATE_SIGNALED
            } else {
                0
            },
    {
        if signaled {
            FENCE_CREATE_SIGNALED
        } else {
            0
        }
    }

    /// The fence with handle `handle`, created signaled or not.
    pub fn new(handle: u64, signaled: bool) -> (fence: Self)
        ensures
            fence.id() == handle,
            fence.status() == if signaled {
                FenceState::Signaled
            } else {
                FenceState::Unsignaled
            },
    {
        Self {
            handle,
            state: if signaled {
                FenceState::Signaled
            } else {
                FenceState::Unsignaled
            },
        }
    }

    /// The same fence in another state.
    pub closed spec fn with_status(self, state: FenceState) -> Self {
        Fence { handle: self.handle, state }
    }

    /// Changing the state changes nothing else.
    pub broadcast proof fn lemma_with_status(self, state: FenceState)
        ensures
            (#[trigger] self.with_status(state)).id() == self.id(),
            self.with_status(state).status() == state,
            self.with_status(self.status()) == self,
    {
    }

    pub fn handle(&self) -> (handle: u64)
        ensures
            handle == self.id(),
    {
        self.handle
    }

    pub fn state(&self) -> (state: FenceState)
        ensures
            state == self.status(),
    {
        self.state
    }

    /// Records a submission that signals this fence when it completes.
    pub fn arm(&mut self)
        ensures
            *final(self) == old(self).with_status(FenceState::Armed),
    {
        self.state = FenceState::Armed;
    }

    /// The wait for the fence, for at most `timeout` nanoseconds.
    pub fn wait(&self, timeout: u64) -> (info: FenceWaitInfo)
        ensures
            info == (FenceWaitInfo { fence: self.id(), wait_all: true, timeout }),
    {
        FenceWaitInfo { fence: self.handle, wait_all: true, timeout }
    }

    /// The wait for the fence without timeout.
    pub fn wait_max_timeout(&self) -> (info: FenceWaitInfo)
        ensures
            info == (FenceWaitInfo { fence: self.id(), wait_all: true, timeout: u64::MAX }),
    {
        self.wait(u64::MAX)
    }

    /// Records how a wait on the fence ended: after a wait that succeeded
    /// the fence is known to be signaled; a failure leaves it as it was and
    /// is handed on.
    pub fn waited(&mut self, waited: Result<(), SynchronizationError>) -> (outcome: Result<
        (),
        SynchronizationError,
    >)
        ensures
            outcome == waited,
            *final(self) == if waited.is_ok() {
                old(self).with_status(FenceState::Signaled)
            } else {
                *old(self)
            },
    {
        if waited.is_ok() {
            self.state = FenceState::Signaled;
        }
        waited
    }

    /// Records how a reset ended: after one that succeeded the fence is
    /// unsignaled.
    pub fn reset(&mut self, done: Result<(), SynchronizationError>) -> (outcome: Result<
        (),
        SynchronizationError,
    >)
        ensures
            outcome == done,
            *final(self) == if done.is_ok() {
                old(self).with_status(FenceState::Unsignaled)
            } else {
                *old(self)
            },
    {
        if done.is_ok() {
            self.state = FenceState::Unsignaled;
        }
        done
    }
}

} // verus!
