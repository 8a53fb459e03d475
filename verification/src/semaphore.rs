//! Binary semaphores: they order work between queue operations.

use vstd::prelude::*;

verus! {

/// A binary semaphore.
#[derive(Clone, Copy, Debug, PartialEq, Eq, Structural)]
pub struct Semaphore {
    handle: u64,
}

impl Semaphore {
    /// The semaphore's handle.
    pub closed spec fn id(&self) -> u64 {
        self.handle
    }

    pub fn new(handle: u64) -> (semaphore: Self)
        ensures
            semaphore.id() == handle,
    {
        Self { handle }
    }

    pub fn handle(&self) -> (handle: u64)
        ensures
            handle == self.id(),
    {
        self.handle
    }
}

} // verus!
