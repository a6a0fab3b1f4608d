//! The slots of asynchronous operations.

use crate::effect::Effect;
use vstd::prelude::*;

verus! {

/// The manager of asynchronous operations.
#[derive(Debug, Clone, PartialEq, Eq)]
pub struct UringAsyncMgr {
    /// The slots whose operations are over, in the order in which they ended.
    pub freeids: std::collections::VecDeque<usize>,
}

/// The slots, returned in order.
pub open spec fn free_all(ids: Seq<usize>) -> Seq<Effect> {
    ids.map_values(|id: usize| Effect::FreeSlot(id))
}

impl UringAsyncMgr {
    /// Returns a slot.
    pub fn FreeSlot(&self, id: usize) -> (r: Effect)
        ensures
            r == Effect::FreeSlot(id),
    {
        Effect::FreeSlot(id)
    }

    /// Returns all slots whose operations are over, the oldest first.
    pub fn Clear(&mut self) -> (r: Vec<Effect>)
        ensures
            final(self).freeids@ == Seq::<usize>::empty(),
            r@ == free_all(old(self).freeids@),
    {
        let mut r: Vec<Effect> = Vec::new();
        loop
            invariant
                r@ + free_all(self.freeids@) == free_all(old(self).freeids@),
            ensures
                self.freeids@.len() == 0,
                r@ == free_all(old(self).freeids@),
            decreases self.freeids@.len(),
        {
            let ghost before = self.freeids@;
            let id: usize = match self.freeids.pop_front() {
                None => break,
                Some(id) => id,
            };
            assert(free_all(before) =~= seq![Effect::FreeSlot(id)] + free_all(self.freeids@));
            r.push(self.FreeSlot(id));
        }
        r
    }
}

/// Clearing returns every slot that was waiting once, in order, and nothing else;
/// with none waiting, as after clearing, it returns nothing.
pub proof fn each_slot_is_returned_once(ids: Seq<usize>)
    ensures
        free_all(ids).len() == ids.len(),
        forall|i: int| 0 <= i < ids.len() ==> #[trigger] free_all(ids)[i] == Effect::FreeSlot(
            ids[i],
        ),
        free_all(Seq::empty()) == Seq::<Effect>::empty(),
{
}

/// The slot returned is exactly the one given, so different slots are told apart.
pub proof fn slot_returned_is_the_one_given(
    mgr: UringAsyncMgr,
    a: usize,
    b: usize,
    ra: Effect,
    rb: Effect,
)
    requires
        call_ensures(UringAsyncMgr::FreeSlot, (&mgr, a), ra),
        call_ensures(UringAsyncMgr::FreeSlot, (&mgr, b), rb),
    ensures
        ra matches Effect::FreeSlot(id) && id == a,
        ra == rb <==> a == b,
{
}

} // verus!
