//! Buffers: a device handle, the memory bound to it and, where the host can
//! see that memory, its contents.

use vstd::prelude::*;
use vstd::slice::slice_to_vec;
use crate::allocator::{Allocation, AllocationCreateDesc, Allocator, Ledger, LiveAllocation};
use crate::allocator::{MemoryLocation, MemoryRegion, MemoryRequirements};
use crate::error::ResourceError;

verus! {

/// Usage bit: source of a transfer.
pub const USAGE_TRANSFER_SRC: u32 = 0x1;

/// Usage bit: destination of a transfer.
pub const USAGE_TRANSFER_DST: u32 = 0x2;

/// Usage bit: uniform buffer.
pub const USAGE_UNIFORM_BUFFER: u32 = 0x10;

/// Usage bit: index buffer.
pub const USAGE_INDEX_BUFFER: u32 = 0x40;

/// Usage bit: vertex buffer.
pub const USAGE_VERTEX_BUFFER: u32 = 0x80;

/// What a buffer is to be made of.
#[derive(Clone, Copy, Debug, PartialEq, Eq, Structural)]
pub struct BufferCreateInfo {
    pub size: u64,
    pub usage: u32,
}

/// A range of mapped memory to make visible to the device.
#[derive(Clone, Copy, Debug, PartialEq, Eq, Structural)]
pub struct MappedMemoryRange {
    pub memory: u64,
    pub offset: u64,
    pub size: u64,
}

/// One step of taking a resource apart.
#[derive(Clone, Copy, Debug, PartialEq, Eq, Structural)]
pub enum Teardown {
    /// Give the region back to the device's allocator.
    FreeAllocation(LiveAllocation),
    /// Give back a region that the device's allocator granted and the
    /// ledger never entered.
    ReturnRegion(MemoryRegion),
    DestroyBuffer { handle: u64 },
    DestroyImage { handle: u64 },
}

/// Why a resource could not be made, and what is left to undo: the steps
/// to carry out on the device, in order.
#[derive(Clone, Debug)]
pub struct CreationFailure {
    pub error: ResourceError,
    pub steps: Vec<Teardown>,
}

/// What making a resource comes to, given how getting and binding its
/// memory went: the entry of its memory where it was made, else the failure
/// and the steps that undo what was done, the memory first and the handle
/// after it. `destroy` is the step that destroys the handle.
pub open spec fn creation_outcome(
    ledger: Ledger,
    location: MemoryLocation,
    granted: Result<MemoryRegion, ResourceError>,
    bound: Result<(), ResourceError>,
    destroy: Teardown,
) -> Result<LiveAllocation, (ResourceError, Seq<Teardown>)> {
    match granted {
        Err(error) => Err((error, seq![destroy])),
        Ok(region) => if ledger.next_id == u64::MAX {
            Err((ResourceError::OutOfMemory, seq![Teardown::ReturnRegion(region), destroy]))
        } else {
            let entry = LiveAllocation { id: ledger.next_id, region, location };
            match bound {
                Err(error) => Err((error, seq![Teardown::FreeAllocation(entry), destroy])),
                Ok(_) => Ok(entry),
            }
        },
    }
}

/// The ledger after making a resource, given how getting and binding its
/// memory went: after a failure nothing more is live than before.
pub open spec fn ledger_after_creation(
    ledger: Ledger,
    location: MemoryLocation,
    granted: Result<MemoryRegion, ResourceError>,
    bound: Result<(), ResourceError>,
) -> Ledger {
    let entered = ledger.after_allocate(location, granted);
    if granted.is_ok() && ledger.next_id < u64::MAX && bound.is_err() {
        entered.after_free(
            LiveAllocation { id: ledger.next_id, region: granted.unwrap(), location },
        )
    } else {
        entered
    }
}

/// A buffer on the device.
#[derive(Debug)]
pub struct Buffer {
    size: usize,
    allocation: Allocation,
    handle: u64,
    bytes: Vec<u8>,
    dirty: bool,
}

/// The request for the memory of a linear resource.
pub fn linear_allocation_desc(requirements: MemoryRequirements, location: MemoryLocation, name: String) -> (desc:
    AllocationCreateDesc)
    ensures
        desc.name == name,
        desc.requirements == requirements,
        desc.location == location,
        desc.linear,
{
    AllocationCreateDesc { name, requirements, location, linear: true }
}

/// `count` bytes, all zero.
fn zeroed(count: usize) -> (bytes: Vec<u8>)
    ensures
        bytes@.len() == count,
{
    let mut bytes: Vec<u8> = Vec::new();
    let mut i: usize = 0;
    while i < count
        invariant
            i <= count,
            bytes@.len() == i,
        decreases count - i,
    {
        bytes.push(0u8);
        i += 1;
    }
    bytes
}

impl Buffer {
    /// The buffer's handle.
    pub closed spec fn id(&self) -> u64 {
        self.handle
    }

    /// The buffer's size in bytes.
    pub closed spec fn len(&self) -> usize {
        self.size
    }

    /// The ledger entry of the buffer's memory.
    pub closed spec fn memory(&self) -> LiveAllocation {
        self.allocation.entry()
    }

    /// What the host sees of the buffer's memory; nothing where it cannot
    /// see it.
    pub closed spec fn contents(&self) -> Seq<u8> {
        self.bytes@
    }

    /// Whether the host has written since the last flush.
    pub closed spec fn unflushed(&self) -> bool {
        self.dirty
    }

    /// What every buffer keeps true: the host sees all of its bytes or none.
    pub open spec fn well_formed(&self) -> bool {
        self.contents().len() == if self.memory().region.host_visible {
            self.len() as int
        } else {
            0
        }
    }

    /// The request for the memory of a buffer with the given requirements.
    pub fn allocation_desc(requirements: MemoryRequirements, location: MemoryLocation, name: String) -> (desc:
        AllocationCreateDesc)
        ensures
            desc.name == name,
            desc.requirements == requirements,
            desc.location == location,
            desc.linear,
    {
        linear_allocation_desc(requirements, location, name)
    }

    /// The buffer with handle `handle`, from how getting and binding its
    /// memory went: `granted` is the answer of the device's allocator to
    /// `desc`, `bound` that of binding the region to the handle. Where the
    /// buffer cannot be made, the failure comes with the steps that undo
    /// what was done: the region goes back first, the handle is destroyed
    /// after it, each once; and the ledger holds nothing more than before.
    pub fn new(
        allocator: &mut Allocator,
        create_info: &BufferCreateInfo,
        handle: u64,
        desc: &AllocationCreateDesc,
        granted: Result<MemoryRegion, ResourceError>,
        bound: Result<(), ResourceError>,
    ) -> (outcome: Result<Self, CreationFailure>)
        requires
            old(allocator)@.well_formed(),
        ensures
            final(allocator)@.well_formed(),
            final(allocator)@ == ledger_after_creation(
                old(allocator)@,
                desc.location,
                granted,
                bound,
            ),
            match creation_outcome(
                old(allocator)@,
                desc.location,
                granted,
                bound,
                Teardown::DestroyBuffer { handle },
            ) {
                Ok(entry) => outcome matches Ok(buffer) && buffer.id() == handle && buffer.len()
                    == create_info.size as usize && buffer.memory() == entry
                    && buffer.well_formed() && !buffer.unflushed() && final(allocator)@.holds(
                    entry,
                ),
                Err((error, steps)) => outcome matches Err(failure) && failure.error == error
                    && failure.steps@ == steps && final(allocator)@.live == old(allocator)@.live,
            },
    {
        let mut steps: Vec<Teardown> = Vec::new();
        let region = match granted {
            Ok(region) => region,
            Err(error) => {
                steps.push(Teardown::DestroyBuffer { handle });
                assert(steps@ =~= seq![Teardown::DestroyBuffer { handle }]);
                return Err(CreationFailure { error, steps });
            },
        };
        let allocation = match allocator.allocate(desc, granted) {
            Ok(allocation) => allocation,
            Err(error) => {
                steps.push(Teardown::ReturnRegion(region));
                steps.push(Teardown::DestroyBuffer { handle });
                assert(steps@ =~= seq![
                    Teardown::ReturnRegion(region),
                    Teardown::DestroyBuffer { handle },
                ]);
                return Err(CreationFailure { error, steps });
            },
        };
        match bound {
            Err(error) => {
                proof {
                    crate::allocator::lemma_position_of_from(allocator@.live, allocation.entry().id, 0);
                    crate::allocator::lemma_position_of_absent(
                        old(allocator)@.live,
                        allocation.entry().id,
                    );
                    crate::allocator::lemma_position_of_push(
                        old(allocator)@.live,
                        allocation.entry(),
                    );
                }
                let ghost entry = allocation.entry();
                let id = allocation.id();
                let location = allocation.location();
                let _ = allocator.free(allocation);
                assert(allocator@.live =~= old(allocator)@.live);
                let entered = LiveAllocation { id, region, location };
                assert(entered == entry);
                steps.push(Teardown::FreeAllocation(entered));
                steps.push(Teardown::DestroyBuffer { handle });
                assert(steps@ =~= seq![
                    Teardown::FreeAllocation(entry),
                    Teardown::DestroyBuffer { handle },
                ]);
                Err(CreationFailure { error, steps })
            },
            Ok(_) => {
                #[verifier::truncate]
                let size: usize = create_info.size as usize;
                let bytes = if allocation.host_visible() {
                    zeroed(size)
                } else {
                    Vec::new()
                };
                Ok(Self { size, allocation, handle, bytes, dirty: false })
            },
        }
    }

    /// Whether `allocator` holds the buffer's memory.
    pub fn held_by(&self, allocator: &Allocator) -> (held: bool)
        ensures
            held == allocator@.holds(self.memory()),
    {
        allocator.contains(&self.allocation)
    }

    /// Where the buffer's memory starts in its device memory object.
    pub fn offset(&self) -> (offset: usize)
        ensures
            offset == self.memory().region.offset as usize,
    {
        #[verifier::truncate]
        (self.allocation.offset() as usize)
    }

    pub fn device_memory(&self) -> (memory: u64)
        ensures
            memory == self.memory().region.memory,
    {
        self.allocation.memory()
    }

    /// The size of the region bound to the buffer, which may exceed the
    /// buffer's own.
    pub fn allocation_size(&self) -> (size: usize)
        ensures
            size == self.memory().region.size as usize,
    {
        #[verifier::truncate]
        (self.allocation.size() as usize)
    }

    /// The token of the memory in the ledger.
    pub fn allocation_id(&self) -> (id: u64)
        ensures
            id == self.memory().id,
    {
        self.allocation.id()
    }

    pub fn size(&self) -> (size: usize)
        ensures
            size == self.len(),
    {
        self.size
    }

    pub fn handle(&self) -> (handle: u64)
        ensures
            handle == self.id(),
    {
        self.handle
    }

    /// Whether the host has written since the last flush.
    pub fn needs_flush(&self) -> (dirty: bool)
        ensures
            dirty == self.unflushed(),
    {
        self.dirty
    }

    /// The buffer's bytes as the host sees them.
    pub fn mapped_slice(&self) -> (outcome: Result<&[u8], ResourceError>)
        requires
            self.well_formed(),
        ensures
            if self.memory().region.host_visible {
                outcome matches Ok(bytes) && bytes@ == self.contents() && bytes@.len()
                    == self.len()
            } else {
                outcome matches Err(e) && e == ResourceError::NotHostVisible
            },
    {
        if self.allocation.host_visible() {
            Ok(self.bytes.as_slice())
        } else {
            Err(ResourceError::NotHostVisible)
        }
    }

    /// The buffer's bytes, for the host to write. What is written awaits a
    /// flush.
    pub fn mapped_slice_mut(&mut self) -> (outcome: Result<&mut [u8], ResourceError>)
        requires
            old(self).well_formed(),
        ensures
            final(self).id() == old(self).id(),
            final(self).len() == old(self).len(),
            final(self).memory() == old(self).memory(),
            if old(self).memory().region.host_visible {
                outcome matches Ok(bytes) && bytes@ == old(self).contents()
                    && final(self).contents() == final(bytes)@ && final(self).unflushed()
            } else {
                outcome matches Err(e) && e == ResourceError::NotHostVisible
                    && final(self).contents() == old(self).contents()
                    && final(self).unflushed() == old(self).unflushed()
            },
    {
        if self.allocation.host_visible() {
            self.dirty = true;
            Ok(self.bytes.as_mut_slice())
        } else {
            Err(ResourceError::NotHostVisible)
        }
    }

    /// Whether this is `before` with `data` written over it: handle, size
    /// and memory are the same; where the host sees the memory the contents
    /// are `data` and await a flush, else nothing has changed.
    pub open spec fn is_write_of(&self, before: &Buffer, data: Seq<u8>) -> bool {
        &&& self.id() == before.id()
        &&& self.len() == before.len()
        &&& self.memory() == before.memory()
        &&& if before.memory().region.host_visible {
            self.contents() == data && self.unflushed()
        } else {
            self.contents() == before.contents() && self.unflushed() == before.unflushed()
        }
    }

    /// Whether this is `before` after a flush: the same but for having
    /// nothing left to flush.
    pub open spec fn is_flush_of(&self, before: &Buffer) -> bool {
        &&& self.id() == before.id()
        &&& self.len() == before.len()
        &&& self.memory() == before.memory()
        &&& self.contents() == before.contents()
        &&& !self.unflushed()
    }

    /// The range that covers the whole buffer.
    pub open spec fn whole_range(&self) -> MappedMemoryRange {
        MappedMemoryRange {
            memory: self.memory().region.memory,
            offset: self.memory().region.offset,
            size: self.len() as u64,
        }
    }

    /// Writes `data` over the whole buffer.
    pub fn copy_into(&mut self, data: &[u8]) -> (outcome: Result<(), ResourceError>)
        requires
            old(self).well_formed(),
            old(self).memory().region.host_visible ==> data@.len() == old(self).len(),
        ensures
            final(self).well_formed(),
            final(self).is_write_of(old(self), data@),
            outcome == if old(self).memory().region.host_visible {
                Ok::<(), ResourceError>(())
            } else {
                Err(ResourceError::NotHostVisible)
            },
    {
        if self.allocation.host_visible() {
            self.bytes = slice_to_vec(data);
            self.dirty = true;
            Ok(())
        } else {
            Err(ResourceError::NotHostVisible)
        }
    }

    /// The range to flush so that the device sees what the host wrote: the
    /// whole buffer.
    pub fn flush(&self) -> (range: MappedMemoryRange)
        ensures
            range == self.whole_range(),
    {
        MappedMemoryRange {
            memory: self.allocation.memory(),
            offset: self.allocation.offset(),
            size: self.size as u64,
        }
    }

    /// Records how flushing the buffer went: after a flush that succeeded
    /// nothing is left to flush; one that failed leaves the buffer as it was
    /// and is handed on.
    pub fn flushed(&mut self, done: Result<(), ResourceError>) -> (outcome: Result<
        (),
        ResourceError,
    >)
        ensures
            outcome == done,
            if done.is_ok() {
                final(self).is_flush_of(old(self))
            } else {
                *final(self) == *old(self)
            },
    {
        if done.is_ok() {
            self.dirty = false;
        }
        done
    }

    /// Writes `data` over the whole buffer and gives the range to flush.
    /// What was written awaits the flush. Where the host cannot see the
    /// memory nothing is written and nothing is to be flushed.
    pub fn copy_into_n_flush(&mut self, data: &[u8]) -> (outcome: Result<
        MappedMemoryRange,
        ResourceError,
    >)
        requires
            old(self).well_formed(),
            old(self).memory().region.host_visible ==> data@.len() == old(self).len(),
        ensures
            final(self).well_formed(),
            final(self).is_write_of(old(self), data@),
            outcome == if old(self).memory().region.host_visible {
                Ok::<MappedMemoryRange, ResourceError>(old(self).whole_range())
            } else {
                Err(ResourceError::NotHostVisible)
            },
    {
        match self.copy_into(data) {
            Ok(_) => Ok(self.flush()),
            Err(error) => Err(error),
        }
    }

    /// Takes the buffer apart: its memory is struck out of the ledger, and
    /// the steps to carry out on the device are given in order, the memory
    /// first and the handle after it.
    pub fn destroy(self, allocator: &mut Allocator) -> (steps: Vec<Teardown>)
        requires
            old(allocator)@.well_formed(),
            old(allocator)@.holds(self.memory()),
        ensures
            steps@ == seq![
                Teardown::FreeAllocation(self.memory()),
                Teardown::DestroyBuffer { handle: self.id() },
            ],
            final(allocator)@ == old(allocator)@.after_free(self.memory()),
            final(allocator)@.well_formed(),
            !final(allocator)@.holds(self.memory()),
    {
        let entry = LiveAllocation {
            id: self.allocation.id(),
            region: MemoryRegion {
                memory: self.allocation.memory(),
                offset: self.allocation.offset(),
                size: self.allocation.size(),
                host_visible: self.allocation.host_visible(),
            },
            location: self.allocation.location(),
        };
        let handle = self.handle;
        let _ = allocator.free(self.allocation);
        let mut steps: Vec<Teardown> = Vec::new();
        steps.push(Teardown::FreeAllocation(entry));
        steps.push(Teardown::DestroyBuffer { handle });
        assert(steps@ =~= seq![
            Teardown::FreeAllocation(entry),
            Teardown::DestroyBuffer { handle },
        ]);
        steps
    }
}

/// What the host writes it reads back: once `data` has been written over a
/// buffer whose memory the host sees, and the flush has succeeded, the
/// buffer's contents are `data`, byte for byte, and nothing is left to
/// flush.
pub proof fn lemma_read_back(start: Buffer, written: Buffer, flushed: Buffer, data: Seq<u8>)
    requires
        start.well_formed(),
        start.memory().region.host_visible,
        data.len() == start.len(),
        written.is_write_of(&start, data),
        flushed.is_flush_of(&written),
    ensures
        flushed.contents() == data,
        flushed.well_formed(),
        !flushed.unflushed(),
        flushed.id() == start.id(),
        flushed.memory() == start.memory(),
{
}

} // verus!
