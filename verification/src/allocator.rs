//! The ledger of device memory: every region handed out is entered here and
//! struck out when it is given back.
//!
//! The regions themselves come from the device's allocator. The ledger
//! gives each a token, so that a region can be given back once, and only by
//! way of the ledger it was entered in.

use vstd::prelude::*;
use crate::error::ResourceError;

verus! {

/// Where a resource's memory should live.
#[derive(Clone, Copy, Debug, PartialEq, Eq, Structural)]
pub enum MemoryLocation {
    Unknown,
    /// Memory of the device, as a rule not visible to the host.
    GpuOnly,
    /// Memory the host writes and the device reads: for uploads.
    CpuToGpu,
    /// Memory the device writes and the host reads back.
    GpuToCpu,
}

/// What a resource needs of its memory.
#[derive(Clone, Copy, Debug, PartialEq, Eq, Structural)]
pub struct MemoryRequirements {
    pub size: u64,
    pub alignment: u64,
    pub memory_type_bits: u32,
}

/// A request for memory.
#[derive(Clone, Debug)]
pub struct AllocationCreateDesc {
    pub name: String,
    pub requirements: MemoryRequirements,
    pub location: MemoryLocation,
    /// Whether the resource is a buffer or a linearly tiled image.
    pub linear: bool,
}

/// A region of device memory as the device's allocator hands it out.
#[derive(Clone, Copy, Debug, PartialEq, Eq, Structural)]
pub struct MemoryRegion {
    pub memory: u64,
    pub offset: u64,
    pub size: u64,
    /// Whether the host can write to the region.
    pub host_visible: bool,
}

/// One entry of the ledger.
#[derive(Clone, Copy, Debug, PartialEq, Eq, Structural)]
pub struct LiveAllocation {
    pub id: u64,
    pub region: MemoryRegion,
    pub location: MemoryLocation,
}

/// A region of device memory that belongs to one resource. It cannot be
/// copied: whoever holds it gives it back once.
#[derive(Debug)]
pub struct Allocation {
    id: u64,
    region: MemoryRegion,
    location: MemoryLocation,
}

impl Allocation {
    /// The ledger entry that stands for the allocation.
    pub closed spec fn entry(&self) -> LiveAllocation {
        LiveAllocation { id: self.id, region: self.region, location: self.location }
    }

    pub fn id(&self) -> (id: u64)
        ensures
            id == self.entry().id,
    {
        self.id
    }

    /// The device memory object the region lies in.
    pub fn memory(&self) -> (memory: u64)
        ensures
            memory == self.entry().region.memory,
    {
        self.region.memory
    }

    pub fn offset(&self) -> (offset: u64)
        ensures
            offset == self.entry().region.offset,
    {
        self.region.offset
    }

    pub fn size(&self) -> (size: u64)
        ensures
            size == self.entry().region.size,
    {
        self.region.size
    }

    pub fn location(&self) -> (location: MemoryLocation)
        ensures
            location == self.entry().location,
    {
        self.location
    }

    pub fn host_visible(&self) -> (visible: bool)
        ensures
            visible == self.entry().region.host_visible,
    {
        self.region.host_visible
    }
}

/// The ledger's state, as contracts see it.
pub struct Ledger {
    /// The allocations handed out and not yet given back, oldest first.
    pub live: Seq<LiveAllocation>,
    /// The token the next allocation gets.
    pub next_id: u64,
    /// Allocations handed out so far.
    pub allocated: nat,
    /// Allocations given back so far.
    pub freed: nat,
}

/// The position of the entry with token `id` at or after `from`.
pub open spec fn position_of(live: Seq<LiveAllocation>, id: u64, from: int) -> Option<int>
    decreases live.len() - from,
{
    if from < 0 || from >= live.len() {
        None
    } else if live[from].id == id {
        Some(from)
    } else {
        position_of(live, id, from + 1)
    }
}

impl Ledger {
    /// An empty ledger.
    pub open spec fn empty() -> Self {
        Ledger { live: Seq::empty(), next_id: 0, allocated: 0, freed: 0 }
    }

    /// What the ledger keeps true: nothing is counted that was not handed
    /// out, what was handed out has either been given back or is live, and
    /// no two live allocations share a token.
    pub open spec fn well_formed(self) -> bool {
        &&& self.allocated == self.freed + self.live.len()
        &&& forall|i: int| 0 <= i < self.live.len() ==> (#[trigger] self.live[i]).id < self.next_id
        &&& forall|i: int, j: int|
            0 <= i < j < self.live.len() ==> (#[trigger] self.live[i]).id != (
            #[trigger] self.live[j]).id
    }

    /// Whether `entry` is in the ledger.
    pub open spec fn holds(self, entry: LiveAllocation) -> bool {
        match position_of(self.live, entry.id, 0) {
            Some(i) => self.live[i] == entry,
            None => false,
        }
    }

    /// The ledger after a request that the device's allocator answered with
    /// `granted`.
    pub open spec fn after_allocate(
        self,
        location: MemoryLocation,
        granted: Result<MemoryRegion, ResourceError>,
    ) -> Self {
        match granted {
            Ok(region) if self.next_id < u64::MAX => Ledger {
                live: self.live.push(LiveAllocation { id: self.next_id, region, location }),
                next_id: (self.next_id + 1) as u64,
                allocated: self.allocated + 1,
                ..self
            },
            _ => self,
        }
    }

    /// The ledger after `entry` was given back.
    pub open spec fn after_free(self, entry: LiveAllocation) -> Self {
        if self.holds(entry) {
            Ledger {
                live: self.live.remove(position_of(self.live, entry.id, 0).unwrap()),
                freed: self.freed + 1,
                ..self
            }
        } else {
            self
        }
    }

    /// The ledger after one request.
    pub open spec fn apply(self, request: LedgerRequest) -> Self {
        match request {
            LedgerRequest::Allocate { location, granted } => self.after_allocate(location, granted),
            LedgerRequest::Free { entry } => self.after_free(entry),
        }
    }

    /// The ledger after a run of requests.
    pub open spec fn after(self, requests: Seq<LedgerRequest>) -> Self
        decreases requests.len(),
    {
        if requests.len() == 0 {
            self
        } else {
            self.after(requests.drop_last()).apply(requests.last())
        }
    }
}

/// A request to the ledger: to enter what the device's allocator granted, or
/// to strike an allocation out.
pub enum LedgerRequest {
    Allocate { location: MemoryLocation, granted: Result<MemoryRegion, ResourceError> },
    Free { entry: LiveAllocation },
}

/// The ledger of device memory.
pub struct Allocator {
    live: Vec<LiveAllocation>,
    next_id: u64,
    allocated: Ghost<nat>,
    freed: Ghost<nat>,
}

impl View for Allocator {
    type V = Ledger;

    closed spec fn view(&self) -> Ledger {
        Ledger {
            live: self.live@,
            next_id: self.next_id,
            allocated: self.allocated@,
            freed: self.freed@,
        }
    }
}

impl Allocator {
    /// An empty ledger.
    pub fn new() -> (allocator: Self)
        ensures
            allocator@ == Ledger::empty(),
            allocator@.well_formed(),
    {
        Self { live: Vec::new(), next_id: 0, allocated: Ghost(0), freed: Ghost(0) }
    }

    /// Enters the region that the device's allocator granted for `desc`, and
    /// gives the allocation that stands for it. A refusal by the device's
    /// allocator is handed on and changes nothing; so does a ledger that has
    /// run out of tokens, as being out of memory.
    pub fn allocate(
        &mut self,
        desc: &AllocationCreateDesc,
        granted: Result<MemoryRegion, ResourceError>,
    ) -> (outcome: Result<Allocation, ResourceError>)
        requires
            old(self)@.well_formed(),
        ensures
            final(self)@ == old(self)@.after_allocate(desc.location, granted),
            final(self)@.well_formed(),
            match granted {
                Ok(region) => if old(self)@.next_id < u64::MAX {
                    outcome matches Ok(allocation) && allocation.entry() == (LiveAllocation {
                        id: old(self)@.next_id,
                        region,
                        location: desc.location,
                    }) && final(self)@.holds(allocation.entry())
                } else {
                    outcome matches Err(e) && e == ResourceError::OutOfMemory
                },
                Err(error) => outcome matches Err(e) && e == error,
            },
    {
        match granted {
            Ok(region) => {
                if self.next_id == u64::MAX {
                    return Err(ResourceError::OutOfMemory);
                }
                let id: u64 = self.next_id;
                let entry = LiveAllocation { id, region, location: desc.location };
                proof {
                    lemma_position_of_absent(self.live@, id);
                    lemma_position_of_push(self.live@, entry);
                    self.allocated = Ghost(self.allocated@ + 1);
                }
                self.live.push(entry);
                self.next_id = id + 1;
                Ok(Allocation { id, region, location: desc.location })
            },
            Err(error) => Err(error),
        }
    }

    /// Where the entry with token `id` stands.
    fn find(&self, id: u64) -> (found: Option<usize>)
        ensures
            match found {
                Some(i) => position_of(self@.live, id, 0) == Some(i as int) && i < self@.live.len(),
                None => position_of(self@.live, id, 0).is_none(),
            },
    {
        let mut i: usize = 0;
        while i < self.live.len()
            invariant
                i <= self.live@.len(),
                position_of(self.live@, id, 0) == position_of(self.live@, id, i as int),
            decreases self.live@.len() - i,
        {
            if self.live[i].id == id {
                return Some(i);
            }
            i += 1;
        }
        None
    }

    /// Strikes the allocation out. One that this ledger does not hold, as it
    /// stands, is refused and changes nothing.
    pub fn free(&mut self, allocation: Allocation) -> (outcome: Result<(), ResourceError>)
        requires
            old(self)@.well_formed(),
        ensures
            final(self)@.well_formed(),
            if old(self)@.holds(allocation.entry()) {
                outcome.is_ok() && final(self)@ == old(self)@.after_free(allocation.entry())
                    && !final(self)@.holds(allocation.entry())
            } else {
                outcome == Err::<(), ResourceError>(ResourceError::UnknownAllocation)
                    && final(self)@ == old(self)@
            },
    {
        proof {
            lemma_position_of_from(self.live@, allocation.id, 0);
        }
        match self.find(allocation.id) {
            Some(i) => {
                let entry = self.live[i];
                if entry.region == allocation.region && entry.location == allocation.location {
                    proof {
                        lemma_remove_keeps_distinct(self.live@, i as int);
                        self.freed = Ghost(self.freed@ + 1);
                    }
                    self.live.remove(i);
                    assert(self@.live =~= old(self)@.live.remove(i as int));
                    Ok(())
                } else {
                    Err(ResourceError::UnknownAllocation)
                }
            },
            None => Err(ResourceError::UnknownAllocation),
        }
    }

    /// Whether the ledger holds the allocation, as it stands.
    pub fn contains(&self, allocation: &Allocation) -> (held: bool)
        ensures
            held == self@.holds(allocation.entry()),
    {
        match self.find(allocation.id) {
            Some(i) => {
                let entry = self.live[i];
                entry.id == allocation.id && entry.region == allocation.region && entry.location
                    == allocation.location
            },
            None => false,
        }
    }

    /// The number of allocations handed out and not yet given back.
    pub fn live_count(&self) -> (count: usize)
        ensures
            count == self@.live.len(),
    {
        self.live.len()
    }

    /// Whether everything handed out has been given back.
    pub fn is_balanced(&self) -> (balanced: bool)
        ensures
            balanced == (self@.live.len() == 0),
    {
        self.live.len() == 0
    }
}

/// No entry has a token that is at or above every token in the ledger.
pub proof fn lemma_position_of_absent(live: Seq<LiveAllocation>, id: u64)
    requires
        forall|i: int| 0 <= i < live.len() ==> (#[trigger] live[i]).id < id,
    ensures
        position_of(live, id, 0).is_none(),
{
    lemma_position_of_from(live, id, 0);
}

/// `position_of` finds the first entry with the token, and none where no
/// entry has it.
pub proof fn lemma_position_of_from(live: Seq<LiveAllocation>, id: u64, from: int)
    requires
        0 <= from,
    ensures
        match position_of(live, id, from) {
            Some(i) => from <= i < live.len() && live[i].id == id && forall|j: int|
                from <= j < i ==> (#[trigger] live[j]).id != id,
            None => forall|j: int| from <= j < live.len() ==> (#[trigger] live[j]).id != id,
        },
    decreases live.len() - from,
{
    if from < live.len() && live[from].id != id {
        lemma_position_of_from(live, id, from + 1);
    }
}

/// An entry pushed with a token that no entry has is found at the end.
pub proof fn lemma_position_of_push(live: Seq<LiveAllocation>, entry: LiveAllocation)
    requires
        forall|i: int| 0 <= i < live.len() ==> (#[trigger] live[i]).id != entry.id,
    ensures
        position_of(live.push(entry), entry.id, 0) == Some(live.len() as int),
{
    let pushed = live.push(entry);
    lemma_position_of_from(pushed, entry.id, 0);
    assert(pushed[live.len() as int].id == entry.id);
    assert forall|j: int| 0 <= j < live.len() implies (#[trigger] pushed[j]).id != entry.id by {
        assert(pushed[j] == live[j]);
    }
}

/// Striking an entry out of a ledger with distinct tokens leaves distinct
/// tokens, and the token struck out is gone.
pub proof fn lemma_remove_keeps_distinct(live: Seq<LiveAllocation>, at: int)
    requires
        0 <= at < live.len(),
        forall|i: int, j: int|
            0 <= i < j < live.len() ==> (#[trigger] live[i]).id != (#[trigger] live[j]).id,
    ensures
        forall|i: int, j: int|
            0 <= i < j < live.remove(at).len() ==> (#[trigger] live.remove(at)[i]).id != (
            #[trigger] live.remove(at)[j]).id,
        position_of(live.remove(at), live[at].id, 0).is_none(),
{
    let rest = live.remove(at);
    assert forall|i: int, j: int| 0 <= i < j < rest.len() implies (#[trigger] rest[i]).id != (
    #[trigger] rest[j]).id by {
        let a = if i < at {
            i
        } else {
            i + 1
        };
        let b = if j < at {
            j
        } else {
            j + 1
        };
        assert(rest[i] == live[a] && rest[j] == live[b]);
    }
    lemma_position_of_from(rest, live[at].id, 0);
    assert forall|j: int| 0 <= j < rest.len() implies (#[trigger] rest[j]).id != live[at].id by {
        let b = if j < at {
            j
        } else {
            j + 1
        };
        assert(rest[j] == live[b]);
    }
}

/// Every request leaves a well-formed ledger well formed.
pub proof fn lemma_apply_well_formed(ledger: Ledger, request: LedgerRequest)
    requires
        ledger.well_formed(),
    ensures
        ledger.apply(request).well_formed(),
{
    match request {
        LedgerRequest::Allocate { location, granted } => {
            if granted.is_ok() && ledger.next_id < u64::MAX {
                let entry = LiveAllocation {
                    id: ledger.next_id,
                    region: granted.unwrap(),
                    location,
                };
                let next = ledger.live.push(entry);
                assert forall|i: int, j: int| 0 <= i < j < next.len() implies (#[trigger] next[i]).id
                    != (#[trigger] next[j]).id by {
                    assert(next[i] == ledger.live[i]);
                    if j < ledger.live.len() {
                        assert(next[j] == ledger.live[j]);
                    }
                }
                assert forall|i: int| 0 <= i < next.len() implies (#[trigger] next[i]).id
                    < ledger.next_id + 1 by {
                    if i < ledger.live.len() {
                        assert(next[i] == ledger.live[i]);
                    }
                }
            }
        },
        LedgerRequest::Free { entry } => {
            if ledger.holds(entry) {
                let at = position_of(ledger.live, entry.id, 0).unwrap();
                lemma_position_of_from(ledger.live, entry.id, 0);
                lemma_remove_keeps_distinct(ledger.live, at);
                let rest = ledger.live.remove(at);
                assert forall|i: int| 0 <= i < rest.len() implies (#[trigger] rest[i]).id
                    < ledger.next_id by {
                    let a = if i < at {
                        i
                    } else {
                        i + 1
                    };
                    assert(rest[i] == ledger.live[a]);
                }
            }
        },
    }
}

/// No leak goes unnoticed and nothing is given back twice: after any run of
/// requests to a ledger that started empty, the allocations given back
/// number no more than those handed out, and as many exactly when none is
/// live.
pub proof fn lemma_frees_match_allocations(requests: Seq<LedgerRequest>)
    ensures
        ({
            let ledger = Ledger::empty().after(requests);
            &&& ledger.well_formed()
            &&& ledger.freed <= ledger.allocated
            &&& ledger.freed == ledger.allocated <==> ledger.live.len() == 0
        }),
    decreases requests.len(),
{
    if requests.len() > 0 {
        lemma_frees_match_allocations(requests.drop_last());
        lemma_apply_well_formed(Ledger::empty().after(requests.drop_last()), requests.last());
    }
}

/// Giving an allocation back a second time changes nothing.
pub proof fn lemma_second_free_refused(ledger: Ledger, entry: LiveAllocation)
    requires
        ledger.well_formed(),
    ensures
        !ledger.after_free(entry).holds(entry),
        ledger.after_free(entry).after_free(entry) == ledger.after_free(entry),
{
    if ledger.holds(entry) {
        let at = position_of(ledger.live, entry.id, 0).unwrap();
        lemma_position_of_from(ledger.live, entry.id, 0);
        lemma_remove_keeps_distinct(ledger.live, at);
    }
}

} // verus!
