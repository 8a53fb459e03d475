//! The record of what has been made, so that it can be taken apart in the
//! reverse order: whatever an object was made from outlives it.

use vstd::prelude::*;

verus! {

/// What kind of object a handle names.
#[derive(Clone, Copy, Debug, PartialEq, Eq, Structural)]
pub enum ObjectKind {
    Instance,
    DebugMessenger,
    Surface,
    Device,
    Swapchain,
    ImageView,
    CommandPool,
    Buffer,
    Image,
    ShaderModule,
    RenderPass,
    FrameBuffer,
    Pipeline,
    Semaphore,
    Fence,
}

/// An object that has been made and not yet destroyed.
#[derive(Clone, Copy, Debug, PartialEq, Eq, Structural)]
pub struct Object {
    pub kind: ObjectKind,
    pub handle: u64,
}

/// The position of the last entry equal to `object` before `end`.
pub open spec fn last_position(made: Seq<Object>, object: Object, end: int) -> Option<int>
    decreases end,
{
    if end <= 0 || end > made.len() {
        None
    } else if made[end - 1] == object {
        Some(end - 1)
    } else {
        last_position(made, object, end - 1)
    }
}

/// The objects that live, in the order they were made.
pub struct Registry {
    made: Vec<Object>,
}

impl Registry {
    /// The objects that live, oldest first.
    pub closed spec fn live(&self) -> Seq<Object> {
        self.made@
    }

    pub fn new() -> (registry: Self)
        ensures
            registry.live() == Seq::<Object>::empty(),
    {
        Self { made: Vec::new() }
    }

    /// Takes note that `object` has just been made.
    pub fn register(&mut self, object: Object)
        ensures
            final(self).live() == old(self).live().push(object),
    {
        self.made.push(object);
    }

    /// Takes note that `object` was destroyed ahead of the others. Of
    /// several entries for it the youngest goes. Says whether there was one.
    pub fn release(&mut self, object: Object) -> (found: bool)
        ensures
            match last_position(old(self).live(), object, old(self).live().len() as int) {
                Some(at) => found && final(self).live() == old(self).live().remove(at),
                None => !found && final(self).live() == old(self).live(),
            },
    {
        let mut end: usize = self.made.len();
        while end > 0
            invariant
                end <= self.made@.len(),
                self.made@ == old(self).made@,
                last_position(self.made@, object, self.made@.len() as int) == last_position(
                    self.made@,
                    object,
                    end as int,
                ),
            decreases end,
        {
            if self.made[end - 1] == object {
                self.made.remove(end - 1);
                return true;
            }
            end -= 1;
        }
        false
    }

    /// The number of objects that live.
    pub fn len(&self) -> (count: usize)
        ensures
            count == self.live().len(),
    {
        self.made.len()
    }

    /// The order in which to destroy what lives: youngest first, so that
    /// nothing is destroyed before what was made from it. Afterwards nothing
    /// lives.
    pub fn teardown(&mut self) -> (order: Vec<Object>)
        ensures
            order@ == old(self).live().reverse(),
            final(self).live() == Seq::<Object>::empty(),
    {
        let mut order: Vec<Object> = Vec::new();
        while self.made.len() > 0
            invariant
                order@.len() + self.made@.len() == old(self).made@.len(),
                self.made@ == old(self).made@.take(self.made@.len() as int),
                forall|k: int|
                    0 <= k < order@.len() ==> order@[k] == old(self).made@[old(self).made@.len()
                        - 1 - k],
            decreases self.made@.len(),
        {
            let object = self.made.pop().unwrap();
            order.push(object);
        }
        assert(order@ =~= old(self).live().reverse());
        assert(self.made@ =~= Seq::<Object>::empty());
        order
    }
}

/// In the order of destruction everything comes before what was made before
/// it: of two objects the one made later is destroyed first, and what was
/// made first of all is destroyed last.
pub proof fn lemma_teardown_reverses(made: Seq<Object>, earlier: int, later: int)
    requires
        0 <= earlier < later < made.len(),
    ensures
        made.reverse()[made.len() - 1 - later] == made[later],
        made.reverse()[made.len() - 1 - earlier] == made[earlier],
        made.len() - 1 - later < made.len() - 1 - earlier,
        made.reverse().last() == made[0],
{
}

} // verus!
