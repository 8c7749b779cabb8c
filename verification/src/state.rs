//! The shared program state: the configuration, the screen on display, and the
//! pool of image buffers with its eviction rule.

use crate::bounded::{
    forget_list_contains, forget_list_len, forget_list_new, forget_list_pop, forget_list_push,
    forget_order,
    image_bytes, image_clear, image_new, screen_list, screen_list_len, slot_entries,
    slot_index_get, slot_index_insert, slot_index_new, slot_index_remove, slot_index_values,
};
use crate::pool::{
    lemma_allocate_keeps_wf, lemma_first_free, lemma_forget, lemma_live_buffers_survive,
    lemma_reclaim, lemma_room_for_one_more, Pool,
};
use vstd::arithmetic::div_mod::{lemma_add_mod_noop, lemma_mod_pos_bound, lemma_small_mod};
use vstd::prelude::*;

verus! {

/// How many screens a configuration can list.
pub const NUM_SCREEN_CONFIGURATIONS: usize = 5;

/// How many images the device keeps in memory: the one on display and one
/// fetched ahead.
pub const NUM_SCREEN_BUFFERS: usize = 2;

/// The size of one image buffer.
pub const SERVER_SIDE_IMAGE_BYTES: usize = 25600;

/// The index under which the screensaver's image is kept.
pub const SCREEN_SAVER_SCREEN_IDX: usize = 127;

/// Where the image of one screen is fetched from.
#[derive(Debug, PartialEq, Eq)]
pub struct ScreenConfiguration {
    pub url: heapless::String<128>,
}

impl Clone for ScreenConfiguration {
    fn clone(&self) -> (copy: Self)
        ensures
            copy == *self,
    {
        ScreenConfiguration { url: self.url.clone() }
    }
}

/// The screens of the device, in display order, and the screensaver if one is
/// configured.
#[derive(Debug, Clone)]
pub struct Configuration {
    pub screens: heapless::Vec<ScreenConfiguration, NUM_SCREEN_CONFIGURATIONS>,
    pub screen_saver: Option<ScreenConfiguration>,
}

impl Configuration {
    pub open spec fn screen_seq(&self) -> Seq<ScreenConfiguration> {
        screen_list(self.screens)
    }
}

/// The screen that follows `current` among `screen_count` screens, wrapping at the
/// end; none when there are no screens.
pub open spec fn screen_after(screen_count: nat, current: usize) -> Option<usize> {
    if screen_count > 0 {
        Some(((current + 1) % (screen_count as int)) as usize)
    } else {
        None
    }
}

/// The screen on display after the button has been pressed `presses` times,
/// starting from `start`.
pub open spec fn advanced(screen_count: nat, start: usize, presses: nat) -> usize
    decreases presses,
{
    if presses == 0 {
        start
    } else {
        match screen_after(screen_count, advanced(screen_count, start, (presses - 1) as nat)) {
            Some(next) => next,
            None => 0,
        }
    }
}

/// Pressing the button `presses` times from the first screen leads to the screen
/// `presses mod screen_count`: the screens are visited in order, round and round.
pub proof fn lemma_presses_go_round(screen_count: nat, presses: nat)
    requires
        0 < screen_count <= usize::MAX,
    ensures
        advanced(screen_count, 0, presses) == presses % screen_count,
    decreases presses,
{
    if presses > 0 {
        let count = screen_count as int;
        let before = advanced(screen_count, 0, (presses - 1) as nat);
        lemma_presses_go_round(screen_count, (presses - 1) as nat);
        assert(before == (presses - 1) % count);
        assert((before + 1) % count == (presses as int) % count) by {
            lemma_add_mod_noop(presses - 1, 1, count);
            lemma_mod_pos_bound(before + 1, count);
            lemma_mod_pos_bound(presses as int, count);
            if count > 1 {
                lemma_small_mod(1, screen_count);
            }
        }
        lemma_mod_pos_bound(presses as int, count);
        assert(screen_after(screen_count, before) == Some((presses % screen_count) as usize));
    } else {
        lemma_small_mod(0, screen_count);
    }
}

/// The image buffers, the index that says which screen owns which of them, and the
/// list of screens whose buffer may be reclaimed.
pub struct BufferPool {
    buffers: [heapless::Vec<u8, SERVER_SIDE_IMAGE_BYTES>; NUM_SCREEN_BUFFERS],
    buffer_map: heapless::LinearMap<usize, usize, NUM_SCREEN_BUFFERS>,
    can_forget: heapless::Vec<usize, NUM_SCREEN_BUFFERS>,
}

impl BufferPool {
    /// Which screen owns which slot, and which screens may be reclaimed.
    pub closed spec fn model(&self) -> Pool {
        Pool { slots: slot_entries(self.buffer_map), forgettable: forget_order(self.can_forget) }
    }

    /// The bytes in each slot.
    pub closed spec fn images(&self) -> Seq<Seq<u8>> {
        Seq::new(NUM_SCREEN_BUFFERS as nat, |slot: int| image_bytes(self.buffers[slot]))
    }

    /// A pool in which no screen owns a slot and every buffer is empty.
    pub fn new() -> (pool: Self)
        ensures
            pool.model() == Pool::empty(),
            pool.images() == Seq::new(NUM_SCREEN_BUFFERS as nat, |slot: int| Seq::<u8>::empty()),
    {
        let pool = BufferPool {
            buffers: [image_new(), image_new()],
            buffer_map: slot_index_new(),
            can_forget: forget_list_new(),
        };
        assert(pool.images() =~= Seq::new(NUM_SCREEN_BUFFERS as nat, |slot: int| Seq::<u8>::empty()));
        pool
    }

    /// Empties the buffer in `slot` and lends it out for writing.
    fn cleared_slot(&mut self, slot: usize) -> (buffer: &mut heapless::Vec<u8, SERVER_SIDE_IMAGE_BYTES>)
        requires
            slot < NUM_SCREEN_BUFFERS,
        ensures
            image_bytes(*buffer) == Seq::<u8>::empty(),
            final(self).images() == old(self).images().update(slot as int, image_bytes(*final(buffer))),
            final(self).model() == old(self).model(),
    {
        image_clear(&mut self.buffers[slot]);
        &mut self.buffers[slot]
    }
}

pub struct ProgramState {
    pub config: Option<Configuration>,
    pub screen_index: usize,
    pub store: BufferPool,
}

impl Default for ProgramState {
    fn default() -> (state: Self)
        ensures
            state.config is None,
            state.screen_index == 0,
            state.pool() == Pool::empty(),
            state.images() == Seq::new(NUM_SCREEN_BUFFERS as nat, |slot: int| Seq::<u8>::empty()),
            state.wf(),
    {
        ProgramState::new()
    }
}

impl ProgramState {
    pub open spec fn pool(&self) -> Pool {
        self.store.model()
    }

    pub open spec fn images(&self) -> Seq<Seq<u8>> {
        self.store.images()
    }

    /// The pool is sound and there is an image, empty or not, for every slot.
    pub open spec fn wf(&self) -> bool {
        &&& self.pool().wf()
        &&& self.images().len() == NUM_SCREEN_BUFFERS
    }

    /// The image held for `screen_idx`, if it owns a slot.
    pub open spec fn image_of(&self, screen_idx: usize) -> Option<Seq<u8>> {
        if self.pool().slots.dom().contains(screen_idx) {
            Some(self.images()[self.pool().slots[screen_idx] as int])
        } else {
            None
        }
    }

    /// Whether `screen_idx` owns a buffer that may not be reclaimed.
    pub open spec fn live(&self, screen_idx: usize) -> bool {
        self.pool().slots.dom().contains(screen_idx) && !self.pool().forgettable.contains(
            screen_idx,
        )
    }

    pub open spec fn next_index(&self) -> Option<usize> {
        match self.config {
            Some(config) => screen_after(config.screen_seq().len(), self.screen_index),
            None => None,
        }
    }

    /// The state at boot: no configuration, the first screen selected, an empty pool.
    pub fn new() -> (state: Self)
        ensures
            state.config is None,
            state.screen_index == 0,
            state.pool() == Pool::empty(),
            state.images() == Seq::new(NUM_SCREEN_BUFFERS as nat, |slot: int| Seq::<u8>::empty()),
            state.wf(),
    {
        ProgramState { config: None, screen_index: 0, store: BufferPool::new() }
    }

    /// The screen that follows the one on display, wrapping after the last; none
    /// while there is no configuration or it lists no screen.
    pub fn next_screen_idx(&self) -> (next: Option<usize>)
        ensures
            next == self.next_index(),
    {
        if let Some(config) = &self.config {
            let count = screen_list_len(&config.screens);
            if count == 0 {
                None
            } else {
                proof {
                    lemma_add_mod_noop(self.screen_index as int, 1, count as int);
                    if count > 1 {
                        lemma_small_mod(1, count as nat);
                    }
                }
                Some((self.screen_index % count + 1) % count)
            }
        } else {
            None
        }
    }

    /// Puts the next screen on display, or the first if there is no next.
    pub fn move_to_next_screen(&mut self)
        ensures
            final(self).screen_index == match old(self).next_index() {
                Some(next) => next,
                None => 0,
            },
            final(self).config == old(self).config,
            final(self).store == old(self).store,
    {
        if let Some(idx) = self.next_screen_idx() {
            self.screen_index = idx;
        } else {
            self.screen_index = 0;
        }
    }

    /// Whether `screen_idx` can be marked reclaimable: it is marked already, or
    /// the list of marks has room for it.
    pub fn can_forget_screen_idx(&self, screen_idx: usize) -> (room: bool)
        ensures
            room == self.pool().markable(screen_idx),
    {
        forget_list_contains(&self.store.can_forget, screen_idx) || forget_list_len(
            &self.store.can_forget,
        ) < NUM_SCREEN_BUFFERS
    }

    /// Marks `screen_idx` as rendered: its buffer may be reclaimed from now on.
    /// The mark goes to the end of the list; marking a screen that is marked
    /// already changes nothing. There has to be room for the mark.
    pub fn forget_screen_idx(&mut self, screen_idx: usize)
        requires
            old(self).wf(),
            old(self).pool().markable(screen_idx),
        ensures
            final(self).wf(),
            final(self).pool() == old(self).pool().forget(screen_idx),
            final(self).pool().forgettable.contains(screen_idx),
            final(self).images() == old(self).images(),
            final(self).config == old(self).config,
            final(self).screen_index == old(self).screen_index,
    {
        if !forget_list_contains(&self.store.can_forget, screen_idx) {
            let _ = forget_list_push(&mut self.store.can_forget, screen_idx);
        }
        proof {
            lemma_forget(old(self).pool(), screen_idx);
        }
    }

    /// Finds a slot for a new image: the lowest free one. Else the last mark is
    /// taken off the list; if the marked screen owns a slot it is evicted and its
    /// buffer emptied, and if it owns none, no slot is found.
    fn find_empty_buffer(&mut self) -> (found: Option<usize>)
        requires
            old(self).wf(),
        ensures
            final(self).wf(),
            final(self).pool() == old(self).pool().reclaim().0,
            found == old(self).pool().reclaim().1,
            final(self).images() == if found is Some && old(self).pool().free_slot() is None {
                old(self).images().update(found->Some_0 as int, Seq::<u8>::empty())
            } else {
                old(self).images()
            },
            final(self).config == old(self).config,
            final(self).screen_index == old(self).screen_index,
    {
        proof {
            lemma_reclaim(self.pool());
            lemma_first_free(self.pool(), 0);
        }
        let in_use = slot_index_values(&self.store.buffer_map);
        let mut i: usize = 0;
        while i < NUM_SCREEN_BUFFERS
            invariant
                i <= NUM_SCREEN_BUFFERS,
                *self == *old(self),
                self.wf(),
                in_use@.to_set() == self.pool().slots.values(),
                self.pool().first_free(0) == self.pool().first_free(i),
            decreases NUM_SCREEN_BUFFERS - i,
        {
            let mut available = true;
            let mut j: usize = 0;
            while j < in_use.len()
                invariant
                    j <= in_use.len(),
                    available <==> forall|t: int| 0 <= t < j ==> in_use@[t] != i,
                decreases in_use.len() - j,
            {
                if in_use[j] == i {
                    available = false;
                }
                j += 1;
            }
            proof {
                if available {
                    assert(!in_use@.to_set().contains(i)) by {
                        if in_use@.contains(i) {
                            let t = choose|t: int| 0 <= t < in_use@.len() && in_use@[t] == i;
                        }
                    }
                } else {
                    let t = choose|t: int| 0 <= t < j && in_use@[t] == i;
                    assert(in_use@.contains(in_use@[t]));
                    assert(in_use@.to_set().contains(i));
                }
            }
            if available {
                return Some(i);
            }
            i += 1;
        }
        if let Some(screen_idx) = forget_list_pop(&mut self.store.can_forget) {
            proof {
                assert(old(self).pool().forgettable.last() == screen_idx);
            }
            if let Some(buffer_idx) = slot_index_remove(&mut self.store.buffer_map, screen_idx) {
                image_clear(&mut self.store.buffers[buffer_idx]);
                assert(self.images() =~= old(self).images().update(
                    buffer_idx as int,
                    Seq::<u8>::empty(),
                ));
                return Some(buffer_idx);
            }
        }
        None
    }

    /// Gives `screen_idx` a buffer and lends it out, empty, to be filled. None when
    /// every slot is owned and the screen marked last, if there is one, owns none:
    /// then every owner keeps its slot and its image.
    pub fn get_mut_buffer_for_screen(&mut self, screen_idx: usize) -> (buffer: Option<
        &mut heapless::Vec<u8, SERVER_SIDE_IMAGE_BYTES>,
    >)
        requires
            old(self).wf(),
        ensures
            final(self).wf(),
            final(self).pool() == old(self).pool().allocate(screen_idx).0,
            buffer is Some <==> old(self).pool().allocate(screen_idx).1 is Some,
            match buffer {
                Some(granted) => image_bytes(*granted) == Seq::<u8>::empty() && final(self).images()
                    =~= old(self).images().update(
                    old(self).pool().allocate(screen_idx).1->Some_0 as int,
                    image_bytes(*final(granted)),
                ),
                None => final(self).images() == old(self).images(),
            },
            buffer matches Some(granted) ==> final(self).image_of(screen_idx) == Some(
                image_bytes(*final(granted)),
            ),
            forall|other: usize|
                other != screen_idx && old(self).live(other) ==> #[trigger] final(self).image_of(other)
                    == old(self).image_of(other),
            final(self).config == old(self).config,
            final(self).screen_index == old(self).screen_index,
    {
        proof {
            lemma_reclaim(self.pool());
            lemma_allocate_keeps_wf(self.pool(), screen_idx);
            assert forall|other: usize| other != screen_idx && self.live(other) implies {
                let after = self.pool().allocate(screen_idx);
                &&& after.0.slots.dom().contains(other)
                &&& after.0.slots[other] == self.pool().slots[other]
                &&& after.1 != Some(self.pool().slots[other])
            } by {
                lemma_live_buffers_survive(self.pool(), screen_idx, other);
            }
        }
        let empty_buffer_idx = match self.find_empty_buffer() {
            Some(slot) => slot,
            None => {
                return None;
            },
        };
        proof {
            lemma_room_for_one_more(self.pool(), empty_buffer_idx);
        }
        let _ = slot_index_insert(&mut self.store.buffer_map, screen_idx, empty_buffer_idx);
        Some(self.store.cleared_slot(empty_buffer_idx))
    }

    /// The buffer that holds the image of `screen_idx`, if it has one.
    pub fn get_buffer_for_screen(&self, screen_idx: usize) -> (buffer: Option<
        &heapless::Vec<u8, SERVER_SIDE_IMAGE_BYTES>,
    >)
        requires
            self.wf(),
        ensures
            buffer is Some <==> self.image_of(screen_idx) is Some,
            buffer matches Some(held) ==> Some(image_bytes(*held)) == self.image_of(screen_idx),
    {
        match slot_index_get(&self.store.buffer_map, screen_idx) {
            Some(buffer_idx) => Some(&self.store.buffers[buffer_idx]),
            None => None,
        }
    }
}

} // verus!
