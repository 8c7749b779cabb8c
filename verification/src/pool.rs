//! The buffer pool as a mathematical object.
//!
//! A pool has `NUM_SCREEN_BUFFERS` slots. `slots` says which screen index owns which
//! slot; `forgettable` lists, oldest mark first, the screen indices whose buffer has
//! been rendered and may be reclaimed. The device's state is specified against this
//! model, and the laws of the pool are proved here once, over the model.

use crate::state::NUM_SCREEN_BUFFERS;
use vstd::prelude::*;
use vstd::relations::injective_on;
use vstd::set_lib::*;

verus! {

pub struct Pool {
    pub slots: Map<usize, usize>,
    pub forgettable: Seq<usize>,
}

impl Pool {
    /// The pool at boot: no screen owns a slot and nothing can be reclaimed.
    pub open spec fn empty() -> Pool {
        Pool { slots: Map::empty(), forgettable: Seq::empty() }
    }

    /// Every owner has a slot of its own inside the pool, and no screen is listed
    /// as reclaimable twice.
    pub open spec fn wf(self) -> bool {
        &&& self.slots.dom().finite()
        &&& forall|k: usize| #[trigger]
            self.slots.dom().contains(k) ==> self.slots[k] < NUM_SCREEN_BUFFERS
        &&& forall|j: usize, k: usize|
            #![trigger self.slots[j], self.slots[k]]
            self.slots.dom().contains(j) && self.slots.dom().contains(k) && j != k
                ==> self.slots[j] != self.slots[k]
        &&& self.forgettable.no_duplicates()
    }

    /// Whether `screen_idx` can be marked reclaimable: it is listed already, or
    /// the list has room for it.
    pub open spec fn markable(self, screen_idx: usize) -> bool {
        self.forgettable.contains(screen_idx) || self.forgettable.len() < NUM_SCREEN_BUFFERS
    }

    pub open spec fn slot_in_use(self, slot: usize) -> bool {
        self.slots.values().contains(slot)
    }

    /// The lowest slot at or above `from` that no screen owns.
    pub open spec fn first_free(self, from: usize) -> Option<usize>
        decreases NUM_SCREEN_BUFFERS - from,
    {
        if from >= NUM_SCREEN_BUFFERS {
            None
        } else if !self.slot_in_use(from) {
            Some(from)
        } else {
            self.first_free((from + 1) as usize)
        }
    }

    pub open spec fn free_slot(self) -> Option<usize> {
        self.first_free(0)
    }

    /// Marking a screen reclaimable: it is put at the end of the list unless the
    /// list holds it already.
    pub open spec fn forget(self, screen_idx: usize) -> Pool {
        if !self.forgettable.contains(screen_idx) {
            Pool { slots: self.slots, forgettable: self.forgettable.push(screen_idx) }
        } else {
            self
        }
    }

    /// Finding a slot for a new image: a free slot if there is one. Else the most
    /// recently marked screen is taken off the list; if it owns a slot it loses it
    /// and that slot is found, and if it owns none, none is found. Else none.
    pub open spec fn reclaim(self) -> (Pool, Option<usize>) {
        if self.free_slot() is Some {
            (self, self.free_slot())
        } else if self.forgettable.len() > 0 {
            let evicted = self.forgettable.last();
            (
                Pool {
                    slots: self.slots.remove(evicted),
                    forgettable: self.forgettable.drop_last(),
                },
                if self.slots.dom().contains(evicted) {
                    Some(self.slots[evicted])
                } else {
                    None
                },
            )
        } else {
            (self, None)
        }
    }

    /// Giving `screen_idx` a slot. When none is found no screen gains or loses a
    /// slot, but the mark that was looked at is gone from the list.
    pub open spec fn allocate(self, screen_idx: usize) -> (Pool, Option<usize>) {
        match self.reclaim().1 {
            Some(slot) => (
                Pool {
                    slots: self.reclaim().0.slots.insert(screen_idx, slot),
                    forgettable: self.reclaim().0.forgettable,
                },
                Some(slot),
            ),
            None => (self.reclaim().0, None),
        }
    }

    /// The pool after one allocation for each of `requests`, in order, whether or
    /// not each of them found a slot.
    pub open spec fn allocate_all(self, requests: Seq<usize>) -> Pool
        decreases requests.len(),
    {
        if requests.len() == 0 {
            self
        } else {
            self.allocate_all(requests.drop_last()).allocate(requests.last()).0
        }
    }
}

pub open spec fn all_slots() -> Set<usize> {
    Set::new(|slot: usize| slot < NUM_SCREEN_BUFFERS)
}

proof fn lemma_all_slots_counted()
    ensures
        all_slots().finite(),
        all_slots().len() == NUM_SCREEN_BUFFERS,
{
    let numbers = set_int_range(0, NUM_SCREEN_BUFFERS as int);
    let narrow = |i: int| i as usize;
    lemma_int_range(0, NUM_SCREEN_BUFFERS as int);
    assert(numbers.map(narrow) =~= all_slots()) by {
        assert forall|slot: usize| all_slots().contains(slot) implies numbers.map(narrow).contains(
            slot,
        ) by {
            assert(numbers.contains(slot as int) && slot == narrow(slot as int));
        }
    }
    assert(injective_on(narrow, numbers));
    lemma_map_size(numbers, all_slots(), narrow);
}

/// The slots in use are as many as the screens that own one.
proof fn lemma_owners_counted(pool: Pool)
    requires
        pool.wf(),
    ensures
        pool.slots.values().finite(),
        pool.slots.values().len() == pool.slots.dom().len(),
        pool.slots.values().subset_of(all_slots()),
{
    let slot_of = |k: usize| pool.slots[k];
    assert(pool.slots.dom().map(slot_of) =~= pool.slots.values());
    assert(injective_on(slot_of, pool.slots.dom()));
    lemma_map_size(pool.slots.dom(), pool.slots.values(), slot_of);
}

/// A sound pool never has more owners than slots.
pub proof fn lemma_owners_within_slots(pool: Pool)
    requires
        pool.wf(),
    ensures
        pool.slots.dom().len() <= NUM_SCREEN_BUFFERS,
{
    lemma_all_slots_counted();
    lemma_owners_counted(pool);
    lemma_len_subset(pool.slots.values(), all_slots());
}

/// While a slot is unused there is room for one more owner.
pub proof fn lemma_room_for_one_more(pool: Pool, slot: usize)
    requires
        pool.wf(),
        slot < NUM_SCREEN_BUFFERS,
        !pool.slot_in_use(slot),
    ensures
        pool.slots.dom().len() < NUM_SCREEN_BUFFERS,
{
    lemma_all_slots_counted();
    lemma_owners_counted(pool);
    lemma_len_subset(pool.slots.values(), all_slots().remove(slot));
}

/// What `first_free` finds is an unused slot of the pool, and nothing below it,
/// from `from` on, is unused.
pub proof fn lemma_first_free(pool: Pool, from: usize)
    ensures
        match pool.first_free(from) {
            Some(slot) => from <= slot < NUM_SCREEN_BUFFERS && !pool.slot_in_use(slot) && forall|
                lower: usize,
            | from <= lower < slot ==> pool.slot_in_use(lower),
            None => forall|slot: usize| from <= slot < NUM_SCREEN_BUFFERS ==> pool.slot_in_use(slot),
        },
    decreases NUM_SCREEN_BUFFERS - from,
{
    if from < NUM_SCREEN_BUFFERS && pool.slot_in_use(from) {
        lemma_first_free(pool, (from + 1) as usize);
    }
}

/// The slot handed out by `reclaim` is inside the pool and unused afterwards, and
/// the pool stays sound. No slot is found exactly when none is free and the list
/// is empty or ends in a screen that owns no slot.
pub proof fn lemma_reclaim(pool: Pool)
    requires
        pool.wf(),
    ensures
        pool.reclaim().0.wf(),
        pool.reclaim().1 matches Some(slot) ==> slot < NUM_SCREEN_BUFFERS && !pool.reclaim().0.slot_in_use(
            slot,
        ),
        pool.reclaim().1 is None <==> pool.free_slot() is None && (pool.forgettable.len() == 0
            || !pool.slots.dom().contains(pool.forgettable.last())),
        pool.reclaim().1 is None ==> pool.reclaim().0.slots == pool.slots,
{
    lemma_first_free(pool, 0);
    if pool.free_slot() is None && pool.forgettable.len() > 0 {
        let evicted = pool.forgettable.last();
        let after = pool.reclaim().0;
        assert(after.forgettable.no_duplicates());
        if pool.slots.dom().contains(evicted) {
            assert(!after.slot_in_use(pool.slots[evicted])) by {
                if after.slot_in_use(pool.slots[evicted]) {
                    let k = choose|k: usize|
                        after.slots.dom().contains(k) && after.slots[k] == pool.slots[evicted];
                    assert(pool.slots[k] == pool.slots[evicted]);
                }
            }
        } else {
            assert(after.slots =~= pool.slots);
        }
    }
}

/// Allocation keeps the pool sound.
pub proof fn lemma_allocate_keeps_wf(pool: Pool, screen_idx: usize)
    requires
        pool.wf(),
    ensures
        pool.allocate(screen_idx).0.wf(),
        pool.allocate(screen_idx).1 matches Some(slot) ==> slot < NUM_SCREEN_BUFFERS
            && pool.allocate(screen_idx).0.slots.dom().contains(screen_idx) && pool.allocate(
            screen_idx,
        ).0.slots[screen_idx] == slot,
{
    lemma_reclaim(pool);
    if let Some(slot) = pool.reclaim().1 {
        let before = pool.reclaim().0;
        let after = pool.allocate(screen_idx).0;
        assert forall|j: usize, k: usize|
            after.slots.dom().contains(j) && after.slots.dom().contains(k) && j != k implies
            #[trigger] after.slots[j] != #[trigger] after.slots[k] by {
            if j == screen_idx {
                assert(before.slots.dom().contains(k));
                assert(before.slots.values().contains(before.slots[k]));
            } else if k == screen_idx {
                assert(before.slots.dom().contains(j));
                assert(before.slots.values().contains(before.slots[j]));
            } else {
                assert(before.slots.dom().contains(j) && before.slots.dom().contains(k));
            }
        }
    }
}

/// However many allocations are asked for, and for whichever screens, the screens
/// that own a buffer at the same time are never more than the pool has slots.
pub proof fn lemma_allocations_stay_within_slots(pool: Pool, requests: Seq<usize>)
    requires
        pool.wf(),
    ensures
        pool.allocate_all(requests).wf(),
        pool.allocate_all(requests).slots.dom().len() <= NUM_SCREEN_BUFFERS,
    decreases requests.len(),
{
    if requests.len() > 0 {
        lemma_allocations_stay_within_slots(pool, requests.drop_last());
        lemma_allocate_keeps_wf(pool.allocate_all(requests.drop_last()), requests.last());
    }
    lemma_owners_within_slots(pool.allocate_all(requests));
}

/// An allocation for `screen_idx` takes a buffer away from no other screen unless
/// that screen was marked reclaimable: a screen that owned a slot and was not
/// marked still owns the same slot, and the slot handed out is not that one.
pub proof fn lemma_live_buffers_survive(pool: Pool, screen_idx: usize, other: usize)
    requires
        pool.wf(),
        pool.slots.dom().contains(other),
        other != screen_idx,
        !pool.forgettable.contains(other),
    ensures
        pool.allocate(screen_idx).0.slots.dom().contains(other),
        pool.allocate(screen_idx).0.slots[other] == pool.slots[other],
        pool.allocate(screen_idx).1 != Some(pool.slots[other]),
{
    lemma_reclaim(pool);
    lemma_first_free(pool, 0);
    assert(pool.slot_in_use(pool.slots[other]));
    if pool.free_slot() is None && pool.forgettable.len() > 0 {
        let evicted = pool.forgettable.last();
        assert(pool.forgettable.contains(evicted));
    }
}

/// Marking a screen reclaimable keeps the pool sound and changes no ownership.
/// Afterwards the list holds the screen, once; what it held before comes first, in
/// the old order; and marking the screen again changes nothing.
pub proof fn lemma_forget(pool: Pool, screen_idx: usize)
    requires
        pool.wf(),
    ensures
        pool.forget(screen_idx).wf(),
        pool.forget(screen_idx).slots == pool.slots,
        pool.forget(screen_idx).forgettable.contains(screen_idx),
        pool.forgettable.is_prefix_of(pool.forget(screen_idx).forgettable),
        pool.forget(screen_idx).forgettable.len() <= pool.forgettable.len() + 1,
        pool.forget(screen_idx).forget(screen_idx) == pool.forget(screen_idx),
{
    let after = pool.forget(screen_idx);
    if !pool.forgettable.contains(screen_idx) {
        assert(after.forgettable.last() == screen_idx);
        assert(after.forgettable.contains(screen_idx));
        assert forall|i: int, j: int|
            0 <= i < after.forgettable.len() && 0 <= j < after.forgettable.len() && i != j implies
            after.forgettable[i] != after.forgettable[j] by {
            if i < pool.forgettable.len() {
                assert(pool.forgettable.contains(pool.forgettable[i]));
            }
            if j < pool.forgettable.len() {
                assert(pool.forgettable.contains(pool.forgettable[j]));
            }
        }
    }
}

} // verus!
