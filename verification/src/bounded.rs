//! The fixed-capacity collections the device keeps its state in.
//!
//! The firmware allocates nothing at run time: the buffer pool, its index and the
//! status texts live in `heapless` collections whose capacity is part of their type.
//! Verus does not look inside those collections. This module declares them, gives
//! what each one holds a name, and wraps every method the library calls in a small
//! function whose contract restates what the `heapless` source does. Those contracts
//! are believed, not proved; everything else in the crate is proved from them.

use crate::state::ScreenConfiguration;
use vstd::prelude::*;
use vstd::string::StringSliceAdditionalSpecFns;

verus! {

#[verifier::external_type_specification]
#[verifier::external_body]
#[verifier::reject_recursive_types(T)]
pub struct ExHeaplessVec<T, const N: usize>(heapless::Vec<T, N>);

#[verifier::external_type_specification]
#[verifier::external_body]
#[verifier::reject_recursive_types(K)]
#[verifier::reject_recursive_types(V)]
pub struct ExHeaplessLinearMap<K, V, const N: usize>(heapless::LinearMap<K, V, N>);

#[verifier::external_type_specification]
#[verifier::external_body]
pub struct ExHeaplessString<const N: usize>(heapless::String<N>);

/// The screen indices held by a list of reclaimable screens, oldest mark first.
pub uninterp spec fn forget_order(list: heapless::Vec<usize, 2>) -> Seq<usize>;

/// The bytes held by one image buffer.
pub uninterp spec fn image_bytes(buffer: heapless::Vec<u8, 25600>) -> Seq<u8>;

/// The entries of a slot index: screen index to buffer slot.
pub uninterp spec fn slot_entries(index: heapless::LinearMap<usize, usize, 2>) -> Map<usize, usize>;

/// The screen descriptors of a configuration, in display order.
pub uninterp spec fn screen_list(screens: heapless::Vec<ScreenConfiguration, 5>) -> Seq<ScreenConfiguration>;

/// An index without entries.
pub open spec fn no_entries() -> Map<usize, usize> {
    Map::empty()
}

/// The characters of a status text.
pub uninterp spec fn status_chars(text: heapless::String<30>) -> Seq<char>;

/// `heapless::Vec::new`: a list that holds nothing.
#[verifier::external_body]
pub(crate) fn forget_list_new() -> (list: heapless::Vec<usize, 2>)
    ensures
        forget_order(list) == Seq::<usize>::empty(),
{
    heapless::Vec::new()
}

/// `contains` on the list's slice: whether `screen_idx` is one of the items.
#[verifier::external_body]
pub(crate) fn forget_list_contains(list: &heapless::Vec<usize, 2>, screen_idx: usize) -> (found: bool)
    ensures
        found == forget_order(*list).contains(screen_idx),
{
    list.contains(&screen_idx)
}

/// `len` of the list's slice: how many items it holds.
#[verifier::external_body]
pub(crate) fn forget_list_len(list: &heapless::Vec<usize, 2>) -> (len: usize)
    ensures
        len == forget_order(*list).len(),
{
    list.len()
}

/// `heapless::Vec::push`: appends at the back while fewer than two items are held;
/// a full list is left as it was and the item is handed back.
#[verifier::external_body]
pub(crate) fn forget_list_push(list: &mut heapless::Vec<usize, 2>, screen_idx: usize) -> (r: Result<(), usize>)
    ensures
        r is Ok <==> forget_order(*old(list)).len() < 2,
        r is Err ==> r->Err_0 == screen_idx,
        forget_order(*final(list)) == if forget_order(*old(list)).len() < 2 {
            forget_order(*old(list)).push(screen_idx)
        } else {
            forget_order(*old(list))
        },
{
    list.push(screen_idx)
}

/// `heapless::Vec::pop`: takes the last item off, or returns `None` on an empty list.
#[verifier::external_body]
pub(crate) fn forget_list_pop(list: &mut heapless::Vec<usize, 2>) -> (r: Option<usize>)
    ensures
        r == if forget_order(*old(list)).len() > 0 {
            Some(forget_order(*old(list)).last())
        } else {
            None
        },
        forget_order(*final(list)) == if forget_order(*old(list)).len() > 0 {
            forget_order(*old(list)).drop_last()
        } else {
            forget_order(*old(list))
        },
{
    list.pop()
}

/// `heapless::Vec::new`: a buffer that holds no bytes.
#[verifier::external_body]
pub(crate) fn image_new() -> (buffer: heapless::Vec<u8, 25600>)
    ensures
        image_bytes(buffer) == Seq::<u8>::empty(),
{
    heapless::Vec::new()
}

/// `heapless::Vec::clear`: the buffer holds no bytes afterwards.
#[verifier::external_body]
pub(crate) fn image_clear(buffer: &mut heapless::Vec<u8, 25600>)
    ensures
        image_bytes(*final(buffer)) == Seq::<u8>::empty(),
{
    buffer.clear()
}

/// `heapless::Vec::extend_from_slice`: appends all of `bytes` if they fit in the
/// buffer's 25600 bytes; otherwise changes nothing and reports an error.
#[verifier::external_body]
pub(crate) fn image_extend(buffer: &mut heapless::Vec<u8, 25600>, bytes: &[u8]) -> (r: Result<(), ()>)
    ensures
        r is Ok <==> image_bytes(*old(buffer)).len() + bytes@.len() <= 25600,
        image_bytes(*final(buffer)) == if image_bytes(*old(buffer)).len() + bytes@.len() <= 25600 {
            image_bytes(*old(buffer)) + bytes@
        } else {
            image_bytes(*old(buffer))
        },
{
    buffer.extend_from_slice(bytes)
}

/// `heapless::LinearMap::new`: an index without entries.
#[verifier::external_body]
pub(crate) fn slot_index_new() -> (index: heapless::LinearMap<usize, usize, 2>)
    ensures
        slot_entries(index) == no_entries(),
{
    heapless::LinearMap::new()
}

/// `heapless::LinearMap::get`: the slot stored under `screen_idx`, if there is one.
#[verifier::external_body]
pub(crate) fn slot_index_get(index: &heapless::LinearMap<usize, usize, 2>, screen_idx: usize) -> (r: Option<usize>)
    ensures
        r == if slot_entries(*index).dom().contains(screen_idx) {
            Some(slot_entries(*index)[screen_idx])
        } else {
            None
        },
{
    index.get(&screen_idx).copied()
}

/// `heapless::LinearMap::insert`: replaces the slot of a key that is present and
/// returns the old one; adds a new key while fewer than two are held; on a full
/// index a new key changes nothing and the pair is handed back.
#[verifier::external_body]
pub(crate) fn slot_index_insert(
    index: &mut heapless::LinearMap<usize, usize, 2>,
    screen_idx: usize,
    slot: usize,
) -> (r: Result<Option<usize>, (usize, usize)>)
    ensures
        r is Ok <==> slot_entries(*old(index)).dom().contains(screen_idx) || slot_entries(
            *old(index),
        ).dom().len() < 2,
        r is Ok ==> r->Ok_0 == if slot_entries(*old(index)).dom().contains(screen_idx) {
            Some(slot_entries(*old(index))[screen_idx])
        } else {
            None
        },
        r is Err ==> r->Err_0 == (screen_idx, slot),
        slot_entries(*final(index)) == if r is Ok {
            slot_entries(*old(index)).insert(screen_idx, slot)
        } else {
            slot_entries(*old(index))
        },
{
    index.insert(screen_idx, slot)
}

/// `heapless::LinearMap::remove`: takes the entry of `screen_idx` out and returns its
/// slot, or returns `None` and changes nothing if there is no such entry.
#[verifier::external_body]
pub(crate) fn slot_index_remove(index: &mut heapless::LinearMap<usize, usize, 2>, screen_idx: usize) -> (r: Option<usize>)
    ensures
        r == if slot_entries(*old(index)).dom().contains(screen_idx) {
            Some(slot_entries(*old(index))[screen_idx])
        } else {
            None
        },
        slot_entries(*final(index)) == slot_entries(*old(index)).remove(screen_idx),
{
    index.remove(&screen_idx)
}

/// `heapless::LinearMap::values`: the slots of all entries, in no particular order.
#[verifier::external_body]
pub(crate) fn slot_index_values(index: &heapless::LinearMap<usize, usize, 2>) -> (slots: Vec<usize>)
    ensures
        slots@.to_set() == slot_entries(*index).values(),
{
    index.values().copied().collect()
}

/// `len` of the list's slice: how many descriptors it holds.
#[verifier::external_body]
pub(crate) fn screen_list_len(screens: &heapless::Vec<ScreenConfiguration, 5>) -> (len: usize)
    ensures
        len == screen_list(*screens).len(),
{
    screens.len()
}

/// `get` on the list's slice: the descriptor at `position`, if the list is that long.
#[verifier::external_body]
pub(crate) fn screen_list_get(screens: &heapless::Vec<ScreenConfiguration, 5>, position: usize) -> (r: Option<&ScreenConfiguration>)
    ensures
        r == if position < screen_list(*screens).len() {
            Some(&screen_list(*screens)[position as int])
        } else {
            None
        },
{
    screens.get(position)
}

/// `TryFrom<&str>` of `heapless::String`: the text itself if its UTF-8 encoding fits
/// in 30 bytes, an error otherwise.
#[verifier::external_body]
pub(crate) fn status_text_from(message: &str) -> (r: Result<heapless::String<30>, ()>)
    ensures
        r is Ok <==> message.spec_bytes().len() <= 30,
        r is Ok ==> status_chars(r->Ok_0) == message@,
{
    heapless::String::try_from(message)
}

/// `Clone` of `heapless::String`: a second text equal to the first.
pub assume_specification<const N: usize>[ <heapless::String<N> as Clone>::clone ](
    text: &heapless::String<N>,
) -> (copy: heapless::String<N>)
    ensures
        copy == *text,
;

/// `Clone` of `heapless::Vec`: a second list, made of clones of the items. What a
/// clone of an item is, is up to the item's type, so nothing is said of the list.
pub assume_specification<T, const N: usize>[ <heapless::Vec<T, N> as Clone>::clone ](
    list: &heapless::Vec<T, N>,
) -> (copy: heapless::Vec<T, N>) where T: Clone
;

} // verus!
