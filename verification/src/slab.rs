//! The slab of runnables: what the scheduler uses of `slabmap::SlabMap`.

use crate::runnable::Runnable;
use slabmap::SlabMap;
use vstd::prelude::*;

verus! {

/// `slabmap::SlabMap`, taken as it is: nothing inside it is known here, and
/// all that is said of it is said by the contracts below.
#[verifier::external_type_specification]
#[verifier::external_body]
#[verifier::reject_recursive_types(T)]
pub struct ExSlabMap<T>(SlabMap<T>);

/// The entries of a slab: the slot under each key that is in use. The
/// contracts below say how each call of the slab changes them; nothing else
/// is assumed of them.
pub uninterp spec fn slab_entries(s: SlabMap<Option<Runnable>>) -> Map<usize, Option<Runnable>>;

/// `SlabMap::new`: a slab without entries.
#[verifier::external_body]
pub(crate) fn slab_new() -> (s: SlabMap<Option<Runnable>>)
    ensures
        forall|key: usize| !slab_entries(s).contains_key(key),
{
    SlabMap::new()
}

/// `SlabMap::insert`: stores `value` under a key that was not in use, leaves
/// every other entry alone, and returns the key. Keys are positions in a vector
/// whose items are not zero-sized, so none exceeds `isize::MAX`.
#[verifier::external_body]
pub(crate) fn slab_insert(s: &mut SlabMap<Option<Runnable>>, value: Option<Runnable>) -> (key:
    usize)
    ensures
        !slab_entries(*old(s)).contains_key(key),
        key <= isize::MAX,
        slab_entries(*final(s)) == slab_entries(*old(s)).insert(key, value),
{
    s.insert(value)
}

/// `SlabMap::get`: the slot under `key`, if the key is in use.
#[verifier::external_body]
pub(crate) fn slab_get(s: &SlabMap<Option<Runnable>>, key: usize) -> (slot: Option<
    &Option<Runnable>,
>)
    ensures
        slot.is_some() == slab_entries(*s).contains_key(key),
        slot.is_some() ==> *slot.unwrap() == slab_entries(*s)[key],
{
    s.get(key)
}

/// `SlabMap::get_mut`: the slot under `key` for writing, if the key is in use.
/// What is written goes into that entry and into no other; the keys in use
/// stay the same.
#[verifier::external_body]
pub(crate) fn slab_get_mut(s: &mut SlabMap<Option<Runnable>>, key: usize) -> (slot: Option<
    &mut Option<Runnable>,
>)
    ensures
        slot.is_some() == slab_entries(*old(s)).contains_key(key),
        slot.is_some() ==> *slot.unwrap() == slab_entries(*old(s))[key],
        slot.is_some() ==> slab_entries(*final(s)) == slab_entries(*old(s)).insert(
            key,
            *final(slot.unwrap()),
        ),
        slot.is_none() ==> slab_entries(*final(s)) == slab_entries(*old(s)),
{
    s.get_mut(key)
}

/// `SlabMap::remove`: takes the entry under `key` out, if the key is in use,
/// and returns its slot. The key `usize::MAX` is left out: the slab adds one to
/// the key.
#[verifier::external_body]
pub(crate) fn slab_remove(s: &mut SlabMap<Option<Runnable>>, key: usize) -> (removed: Option<
    Option<Runnable>,
>)
    requires
        key < usize::MAX,
    ensures
        slab_entries(*final(s)) == slab_entries(*old(s)).remove(key),
        removed == (if slab_entries(*old(s)).contains_key(key) {
            Some(slab_entries(*old(s))[key])
        } else {
            None
        }),
{
    s.remove(key)
}

} // verus!
