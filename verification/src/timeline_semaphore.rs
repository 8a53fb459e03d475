//! Timeline semaphores: a counter that only goes up.

use vstd::prelude::*;
use crate::error::SynchronizationError;

verus! {

/// A signal operation on a timeline semaphore.
#[derive(Clone, Copy, Debug, PartialEq, Eq, Structural)]
pub struct SemaphoreSignalInfo {
    pub semaphore: u64,
    pub value: u64,
}

/// A wait for a timeline semaphore to reach a value.
#[derive(Clone, Copy, Debug, PartialEq, Eq, Structural)]
pub struct SemaphoreWaitInfo {
    pub semaphore: u64,
    pub value: u64,
    pub timeout: u64,
}

/// A timeline semaphore and the highest value the host knows it to have
/// reached.
#[derive(Clone, Copy, Debug, PartialEq, Eq, Structural)]
pub struct TimelineSemaphore {
    handle: u64,
    value: u64,
}

impl TimelineSemaphore {
    /// The semaphore's handle.
    pub closed spec fn id(&self) -> u64 {
        self.handle
    }

    /// The highest value the semaphore is known to have reached.
    pub closed spec fn reached(&self) -> u64 {
        self.value
    }

    /// The semaphore with handle `handle`, created at `initial_value`.
    pub fn new(handle: u64, initial_value: u64) -> (semaphore: Self)
        ensures
            semaphore.id() == handle,
            semaphore.reached() == initial_value,
    {
        Self { handle, value: initial_value }
    }

    pub fn handle(&self) -> (handle: u64)
        ensures
            handle == self.id(),
    {
        self.handle
    }

    /// The highest value the semaphore is known to have reached.
    pub fn value(&self) -> (value: u64)
        ensures
            value == self.reached(),
    {
        self.value
    }

    /// Signals `value` from the host. The counter only goes up: a value at
    /// or below the one reached is refused and changes nothing.
    pub fn signal(&mut self, value: u64) -> (outcome: Result<SemaphoreSignalInfo, SynchronizationError>)
        ensures
            final(self).id() == old(self).id(),
            if value > old(self).reached() {
                outcome == Ok::<SemaphoreSignalInfo, SynchronizationError>(
                    SemaphoreSignalInfo { semaphore: old(self).id(), value },
                ) && final(self).reached() == value
            } else {
                outcome == Err::<SemaphoreSignalInfo, SynchronizationError>(
                    SynchronizationError::OutOfOrder,
                ) && final(self).reached() == old(self).reached()
            },
    {
        if value > self.value {
            self.value = value;
            Ok(SemaphoreSignalInfo { semaphore: self.handle, value })
        } else {
            Err(SynchronizationError::OutOfOrder)
        }
    }

    /// The wait for the semaphore to reach `value`.
    pub fn wait(&self, value: u64, timeout: u64) -> (info: SemaphoreWaitInfo)
        ensures
            info == (SemaphoreWaitInfo { semaphore: self.id(), value, timeout }),
    {
        SemaphoreWaitInfo { semaphore: self.handle, value, timeout }
    }

    /// The wait, without timeout, for the semaphore to reach `value`.
    pub fn wait_max_timeout(&self, value: u64) -> (info: SemaphoreWaitInfo)
        ensures
            info == (SemaphoreWaitInfo { semaphore: self.id(), value, timeout: u64::MAX }),
    {
        self.wait(value, u64::MAX)
    }

    /// Records that a wait for `value` succeeded: the semaphore has reached
    /// at least that.
    pub fn waited(&mut self, value: u64)
        ensures
            final(self).id() == old(self).id(),
            final(self).reached() == if value > old(self).reached() {
                value
            } else {
                old(self).reached()
            },
    {
        if value > self.value {
            self.value = value;
        }
    }
}

} // verus!
