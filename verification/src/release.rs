//! Giving everything back: taking apart, at the end, every buffer and image
//! that is left, so that the ledger of device memory ends up empty.

use vstd::prelude::*;
use crate::allocator::{lemma_apply_well_formed, lemma_position_of_from};
use crate::allocator::{lemma_remove_keeps_distinct, position_of};
use crate::allocator::{Allocator, Ledger, LedgerRequest, LiveAllocation};
use crate::buffer::{Buffer, Teardown};
use crate::image::Image;

verus! {

/// A resource that is left: the ledger entry of its memory and the step that
/// destroys its handle.
pub struct Held {
    pub entry: LiveAllocation,
    pub destroy: Teardown,
}

/// The images and buffers that are left, images first, each kind in the
/// order given.
pub open spec fn held_of(buffers: Seq<Buffer>, images: Seq<Image>) -> Seq<Held> {
    Seq::new(
        images.len(),
        |i: int| Held { entry: images[i].memory(), destroy: Teardown::DestroyImage { handle: images[i].id() } },
    ) + Seq::new(
        buffers.len(),
        |i: int|
            Held {
                entry: buffers[i].memory(),
                destroy: Teardown::DestroyBuffer { handle: buffers[i].id() },
            },
    )
}

/// The ledger after everything in `held` was taken apart, last first, and
/// the steps to carry out on the device: for each resource whose memory the
/// ledger holds, its memory is given back, then its handle destroyed. A
/// resource whose memory the ledger does not hold is left alone.
pub open spec fn released(ledger: Ledger, held: Seq<Held>) -> (Ledger, Seq<Teardown>)
    decreases held.len(),
{
    if held.len() == 0 {
        (ledger, Seq::empty())
    } else {
        let last = held.last();
        if ledger.holds(last.entry) {
            let (end, steps) = released(ledger.after_free(last.entry), held.drop_last());
            (end, seq![Teardown::FreeAllocation(last.entry), last.destroy] + steps)
        } else {
            released(ledger, held.drop_last())
        }
    }
}

/// Whether every allocation that the ledger holds is the memory of one of
/// the resources.
pub open spec fn covered(ledger: Ledger, held: Seq<Held>) -> bool {
    forall|i: int|
        0 <= i < ledger.live.len() ==> exists|k: int|
            0 <= k < held.len() && held[k].entry == #[trigger] ledger.live[i]
}

/// What taking everything apart came to.
#[derive(Debug)]
pub struct Release {
    /// The steps to carry out on the device, in order.
    pub steps: Vec<Teardown>,
    /// Whether the ledger holds nothing any more.
    pub balanced: bool,
}

/// Nothing leaks: where every allocation that a ledger holds is the memory
/// of a resource that is left, taking those resources apart leaves the
/// ledger empty, so that as many allocations were given back as were handed
/// out.
pub proof fn lemma_everything_is_given_back(ledger: Ledger, held: Seq<Held>)
    requires
        ledger.well_formed(),
        covered(ledger, held),
    ensures
        released(ledger, held).0.well_formed(),
        released(ledger, held).0.live.len() == 0,
        released(ledger, held).0.freed == released(ledger, held).0.allocated,
    decreases held.len(),
{
    if held.len() == 0 {
        if ledger.live.len() > 0 {
            let k = choose|k: int| 0 <= k < held.len() && held[k].entry == ledger.live[0];
            assert(false);
        }
    } else {
        let last = held.last();
        let rest = held.drop_last();
        lemma_position_of_from(ledger.live, last.entry.id, 0);
        if ledger.holds(last.entry) {
            let at = position_of(ledger.live, last.entry.id, 0).unwrap();
            let after = ledger.after_free(last.entry);
            lemma_apply_well_formed(ledger, LedgerRequest::Free { entry: last.entry });
            lemma_remove_keeps_distinct(ledger.live, at);
            lemma_position_of_from(after.live, last.entry.id, 0);
            assert forall|i: int| 0 <= i < after.live.len() implies exists|k: int|
                0 <= k < rest.len() && rest[k].entry == #[trigger] after.live[i] by {
                let j = if i < at {
                    i
                } else {
                    i + 1
                };
                assert(after.live[i] == ledger.live[j]);
                let k = choose|k: int| 0 <= k < held.len() && held[k].entry == ledger.live[j];
                assert(after.live[i].id != last.entry.id);
                assert(k < rest.len());
                assert(rest[k] == held[k]);
            }
            lemma_everything_is_given_back(after, rest);
        } else {
            assert forall|i: int| 0 <= i < ledger.live.len() implies exists|k: int|
                0 <= k < rest.len() && rest[k].entry == #[trigger] ledger.live[i] by {
                let k = choose|k: int| 0 <= k < held.len() && held[k].entry == ledger.live[i];
                if k == held.len() - 1 {
                    lemma_position_of_from(ledger.live, ledger.live[i].id, 0);
                    let found = position_of(ledger.live, ledger.live[i].id, 0).unwrap();
                    assert(found == i);
                    assert(false);
                }
                assert(rest[k] == held[k]);
            }
            lemma_everything_is_given_back(ledger, rest);
        }
    }
}

/// Takes apart every buffer and image that is left, buffers first, the
/// youngest of each kind first, and gives the steps to carry out on the
/// device. Where the buffers and images are all that the ledger holds memory
/// for, the ledger ends up empty.
pub fn release_all(allocator: &mut Allocator, buffers: Vec<Buffer>, images: Vec<Image>) -> (release:
    Release)
    requires
        old(allocator)@.well_formed(),
    ensures
        final(allocator)@.well_formed(),
        final(allocator)@ == released(old(allocator)@, held_of(buffers@, images@)).0,
        release.steps@ == released(old(allocator)@, held_of(buffers@, images@)).1,
        release.balanced == (final(allocator)@.live.len() == 0),
        covered(old(allocator)@, held_of(buffers@, images@)) ==> release.balanced,
{
    let ghost all = held_of(buffers@, images@);
    let ghost start = allocator@;
    let mut buffers = buffers;
    let mut images = images;
    let mut steps: Vec<Teardown> = Vec::new();
    let ghost all_images = images@;
    while buffers.len() > 0
        invariant
            allocator@.well_formed(),
            images@ == all_images,
            released(start, all) == ({
                let (end, rest) = released(allocator@, held_of(buffers@, images@));
                (end, steps@ + rest)
            }),
        decreases buffers@.len(),
    {
        let ghost before = held_of(buffers@, images@);
        let ghost recorded = steps@;
        let buffer = buffers.pop().unwrap();
        proof {
            assert(before.drop_last() =~= held_of(buffers@, images@));
            assert(before.last() == Held {
                entry: buffer.memory(),
                destroy: Teardown::DestroyBuffer { handle: buffer.id() },
            });
        }
        if buffer.held_by(allocator) {
            let taken = buffer.destroy(allocator);
            steps.push(taken[0]);
            steps.push(taken[1]);
            proof {
                let (end, rest) = released(allocator@, held_of(buffers@, images@));
                assert(steps@ + rest =~= recorded + (seq![
                    Teardown::FreeAllocation(before.last().entry),
                    before.last().destroy,
                ] + rest));
            }
        }
    }
    while images.len() > 0
        invariant
            allocator@.well_formed(),
            buffers@.len() == 0,
            released(start, all) == ({
                let (end, rest) = released(allocator@, held_of(buffers@, images@));
                (end, steps@ + rest)
            }),
        decreases images@.len(),
    {
        let ghost before = held_of(buffers@, images@);
        let ghost recorded = steps@;
        let image = images.pop().unwrap();
        proof {
            assert(before.drop_last() =~= held_of(buffers@, images@));
            assert(before.last() == Held {
                entry: image.memory(),
                destroy: Teardown::DestroyImage { handle: image.id() },
            });
        }
        if image.held_by(allocator) {
            let taken = image.destroy(allocator);
            steps.push(taken[0]);
            steps.push(taken[1]);
            proof {
                let (end, rest) = released(allocator@, held_of(buffers@, images@));
                assert(steps@ + rest =~= recorded + (seq![
                    Teardown::FreeAllocation(before.last().entry),
                    before.last().destroy,
                ] + rest));
            }
        }
    }
    proof {
        assert(held_of(buffers@, images@) =~= Seq::<Held>::empty());
        assert(steps@ + Seq::<Teardown>::empty() =~= steps@);
        if covered(start, all) {
            lemma_everything_is_given_back(start, all);
        }
    }
    let balanced = allocator.is_balanced();
    Release { steps, balanced }
}

} // verus!
