//! The storage backing the cache: a `managed::ManagedMap`, which is either a
//! fixed-size sorted slice of slots (bounded, eviction required when full) or
//! a growable B-tree map (unbounded, insertion always succeeds).
//!
//! The map itself is outside code; this module declares it to the verifier
//! and wraps the handful of operations the cache needs. Each wrapper's
//! contract states, over the two names `contents` and `storage_capacity`,
//! what the map's source does. The ordered-slice operations assume the
//! occupied slots form a sorted prefix; `managed` itself establishes that on
//! a cleared map and preserves it, and every map the cache touches has been
//! cleared by `Cache::new` first.

use vstd::prelude::*;

use managed::ManagedMap;

use crate::neighbor::Neighbor;

verus! {

/// Declares `managed::ManagedMap` to the verifier as an opaque type, so it
/// can stand in signatures and fields.
#[verifier::external_type_specification]
#[verifier::external_body]
#[verifier::reject_recursive_types(K)]
#[verifier::reject_recursive_types(V)]
pub struct ExManagedMap<'a, K: 'a, V: 'a>(ManagedMap<'a, K, V>);

/// The entries the map holds, as a mathematical map from key to value.
pub uninterp spec fn contents(m: ManagedMap<u32, Neighbor>) -> Map<u32, Neighbor>;

/// How many entries the map can hold: the slot count of a borrowed map,
/// effectively unlimited for an owned one.
pub uninterp spec fn storage_capacity(m: ManagedMap<u32, Neighbor>) -> nat;

/// A table with nothing in it.
pub open spec fn empty_table() -> Map<u32, Neighbor> {
    Map::empty()
}

/// Relies on `managed::ManagedMap::clear`: empties the map (sets every slot
/// of a borrowed map to `None`) and leaves its capacity unchanged.
#[verifier::external_body]
pub(crate) fn map_cleared<'a>(m: ManagedMap<'a, u32, Neighbor>) -> (r: ManagedMap<'a, u32, Neighbor>)
    ensures
        contents(r) == empty_table(),
        storage_capacity(r) == storage_capacity(m),
{
    let mut m = m;
    m.clear();
    m
}

/// Relies on `managed::ManagedMap`: the `Borrowed` variant keeps its entries
/// in a fixed slice, so the slice length bounds the entry count; the `Owned`
/// variant is a B-tree map that grows on demand, whose entry count stays
/// below `usize::MAX` in any real process.
#[verifier::external_body]
pub(crate) fn map_capacity(m: &ManagedMap<u32, Neighbor>) -> (r: usize)
    ensures
        r as nat == storage_capacity(*m),
{
    match m {
        ManagedMap::Borrowed(pairs) => pairs.len(),
        ManagedMap::Owned(_) => usize::MAX,
    }
}

/// Relies on `managed::ManagedMap::get`: returns the value stored under the
/// key, or `None` when the key is absent.
#[verifier::external_body]
pub(crate) fn map_get(m: &ManagedMap<u32, Neighbor>, key: u32) -> (r: Option<Neighbor>)
    ensures
        r == (if contents(*m).contains_key(key) {
            Some(contents(*m)[key])
        } else {
            None::<Neighbor>
        }),
{
    m.get(&key).copied()
}

/// Relies on `managed::ManagedMap::insert`: replaces the value of a present
/// key, adds an absent key while a slot is free, and fails, handing the pair
/// back and leaving the map unchanged, exactly when an absent key meets a
/// full map.
#[verifier::external_body]
pub(crate) fn map_insert(m: &mut ManagedMap<u32, Neighbor>, key: u32, value: Neighbor) -> (r:
    Result<Option<Neighbor>, (u32, Neighbor)>)
    ensures
        storage_capacity(*final(m)) == storage_capacity(*old(m)),
        match r {
            Ok(prev) => {
                &&& contents(*final(m)) == contents(*old(m)).insert(key, value)
                &&& match prev {
                    Some(p) => contents(*old(m)).contains_key(key) && p == contents(*old(m))[key],
                    None => !contents(*old(m)).contains_key(key) && contents(*old(m)).dom().len()
                        < storage_capacity(*old(m)),
                }
            },
            Err(back) => {
                &&& back == (key, value)
                &&& !contents(*old(m)).contains_key(key)
                &&& contents(*old(m)).dom().len() >= storage_capacity(*old(m))
                &&& contents(*final(m)) == contents(*old(m))
            },
        },
{
    m.insert(key, value)
}

/// Relies on `managed::ManagedMap::remove`: takes the key's entry out of the
/// map and returns its value, or returns `None` when the key is absent.
#[verifier::external_body]
pub(crate) fn map_remove(m: &mut ManagedMap<u32, Neighbor>, key: u32) -> (r: Option<Neighbor>)
    ensures
        storage_capacity(*final(m)) == storage_capacity(*old(m)),
        contents(*final(m)) == contents(*old(m)).remove(key),
        match r {
            Some(v) => contents(*old(m)).contains_key(key) && v == contents(*old(m))[key],
            None => !contents(*old(m)).contains_key(key),
        },
{
    m.remove(&key)
}

/// Relies on `managed::ManagedMap::iter`: visits every entry exactly once.
/// Hands out each entry's key and expiry timestamp.
#[verifier::external_body]
pub(crate) fn map_entries(m: &ManagedMap<u32, Neighbor>) -> (r: Vec<(u32, u64)>)
    ensures
        r@.len() == contents(*m).dom().len(),
        forall|i: int|
            0 <= i < r@.len() ==> contents(*m).contains_key(#[trigger] r@[i].0) && contents(
                *m,
            )[r@[i].0].expires_at == r@[i].1,
        forall|k: u32| #[trigger]
            contents(*m).contains_key(k) ==> exists|i: int|
                0 <= i < r@.len() && r@[i].0 == k,
{
    m.iter().map(|(k, v)| (*k, v.expires_at)).collect()
}

} // verus!
