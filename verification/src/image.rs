//! Images: a device handle and the device memory bound to it.

use vstd::prelude::*;
use crate::allocator::{Allocation, AllocationCreateDesc, Allocator, LiveAllocation};
use crate::allocator::{MemoryLocation, MemoryRegion, MemoryRequirements};
use crate::buffer::{creation_outcome, ledger_after_creation, linear_allocation_desc};
use crate::buffer::{CreationFailure, Teardown};
use crate::error::ResourceError;
use crate::format::{Format, ImageTiling};

verus! {

/// Usage bit: depth/stencil attachment.
pub const USAGE_DEPTH_STENCIL_ATTACHMENT: u32 = 0x20;

/// The size of an image in three dimensions.
#[derive(Clone, Copy, Debug, PartialEq, Eq, Structural)]
pub struct Extent3D {
    pub width: u32,
    pub height: u32,
    pub depth: u32,
}

/// What an image is to be made of.
#[derive(Clone, Copy, Debug, PartialEq, Eq, Structural)]
pub struct ImageCreateInfo {
    pub extent: Extent3D,
    pub mip_levels: u32,
    pub array_layers: u32,
    pub format: Format,
    pub tiling: ImageTiling,
    pub usage: u32,
    pub samples: u32,
}

/// An image on the device.
#[derive(Debug)]
pub struct Image {
    allocation: Allocation,
    handle: u64,
}

impl Image {
    /// The image's handle.
    pub closed spec fn id(&self) -> u64 {
        self.handle
    }

    /// The ledger entry of the image's memory.
    pub closed spec fn memory(&self) -> LiveAllocation {
        self.allocation.entry()
    }

    /// The request for the memory of an image with the given requirements:
    /// memory of the device.
    pub fn allocation_desc(requirements: MemoryRequirements, name: String) -> (desc:
        AllocationCreateDesc)
        ensures
            desc.name == name,
            desc.requirements == requirements,
            desc.location == MemoryLocation::GpuOnly,
            desc.linear,
    {
        linear_allocation_desc(requirements, MemoryLocation::GpuOnly, name)
    }

    /// The image with handle `handle`, from how getting and binding its
    /// memory went: `granted` is the answer of the device's allocator to
    /// `desc`, `bound` that of binding the region to the handle. Where the
    /// image cannot be made, the failure comes with the steps that undo
    /// what was done: the region goes back first, the handle is destroyed
    /// after it, each once; and the ledger holds nothing more than before.
    pub fn new(
        allocator: &mut Allocator,
        handle: u64,
        desc: &AllocationCreateDesc,
        granted: Result<MemoryRegion, ResourceError>,
        bound: Result<(), ResourceError>,
    ) -> (outcome: Result<Self, CreationFailure>)
        requires
            old(allocator)@.well_formed(),
        ensures
            final(allocator)@.well_formed(),
            final(allocator)@ == ledger_after_creation(
                old(allocator)@,
                desc.location,
                granted,
                bound,
            ),
            match creation_outcome(
                old(allocator)@,
                desc.location,
                granted,
                bound,
                Teardown::DestroyImage { handle },
            ) {
                Ok(entry) => outcome matches Ok(image) && image.id() == handle && image.memory()
                    == entry && final(allocator)@.holds(entry),
                Err((error, steps)) => outcome matches Err(failure) && failure.error == error
                    && failure.steps@ == steps && final(allocator)@.live == old(allocator)@.live,
            },
    {
        let mut steps: Vec<Teardown> = Vec::new();
        let region = match granted {
            Ok(region) => region,
            Err(error) => {
                steps.push(Teardown::DestroyImage { handle });
                assert(steps@ =~= seq![Teardown::DestroyImage { handle }]);
                return Err(CreationFailure { error, steps });
            },
        };
        let allocation = match allocator.allocate(desc, granted) {
            Ok(allocation) => allocation,
            Err(error) => {
                steps.push(Teardown::ReturnRegion(region));
                steps.push(Teardown::DestroyImage { handle });
                assert(steps@ =~= seq![
                    Teardown::ReturnRegion(region),
                    Teardown::DestroyImage { handle },
                ]);
                return Err(CreationFailure { error, steps });
            },
        };
        match bound {
            Err(error) => {
                proof {
                    crate::allocator::lemma_position_of_from(allocator@.live, allocation.entry().id, 0);
                    crate::allocator::lemma_position_of_absent(
                        old(allocator)@.live,
                        allocation.entry().id,
                    );
                    crate::allocator::lemma_position_of_push(
                        old(allocator)@.live,
                        allocation.entry(),
                    );
                }
                let ghost entry = allocation.entry();
                let id = allocation.id();
                let location = allocation.location();
                let _ = allocator.free(allocation);
                assert(allocator@.live =~= old(allocator)@.live);
                let entered = LiveAllocation { id, region, location };
                assert(entered == entry);
                steps.push(Teardown::FreeAllocation(entered));
                steps.push(Teardown::DestroyImage { handle });
                assert(steps@ =~= seq![
                    Teardown::FreeAllocation(entry),
                    Teardown::DestroyImage { handle },
                ]);
                Err(CreationFailure { error, steps })
            },
            Ok(_) => Ok(Self { allocation, handle }),
        }
    }

    /// Whether `allocator` holds the image's memory.
    pub fn held_by(&self, allocator: &Allocator) -> (held: bool)
        ensures
            held == allocator@.holds(self.memory()),
    {
        allocator.contains(&self.allocation)
    }

    /// The token of the memory in the ledger.
    pub fn allocation_id(&self) -> (id: u64)
        ensures
            id == self.memory().id,
    {
        self.allocation.id()
    }

    pub fn handle(&self) -> (handle: u64)
        ensures
            handle == self.id(),
    {
        self.handle
    }

    /// Takes the image apart: its memory is struck out of the ledger, and
    /// the steps to carry out on the device are given in order, the memory
    /// first and the handle after it.
    pub fn destroy(self, allocator: &mut Allocator) -> (steps: Vec<Teardown>)
        requires
            old(allocator)@.well_formed(),
            old(allocator)@.holds(self.memory()),
        ensures
            steps@ == seq![
                Teardown::FreeAllocation(self.memory()),
                Teardown::DestroyImage { handle: self.id() },
            ],
            final(allocator)@ == old(allocator)@.after_free(self.memory()),
            final(allocator)@.well_formed(),
            !final(allocator)@.holds(self.memory()),
    {
        let entry = LiveAllocation {
            id: self.allocation.id(),
            region: MemoryRegion {
                memory: self.allocation.memory(),
                offset: self.allocation.offset(),
                size: self.allocation.size(),
                host_visible: self.allocation.host_visible(),
            },
            location: self.allocation.location(),
        };
        let handle = self.handle;
        let _ = allocator.free(self.allocation);
        let mut steps: Vec<Teardown> = Vec::new();
        steps.push(Teardown::FreeAllocation(entry));
        steps.push(Teardown::DestroyImage { handle });
        assert(steps@ =~= seq![
            Teardown::FreeAllocation(entry),
            Teardown::DestroyImage { handle },
        ]);
        steps
    }
}

} // verus!
