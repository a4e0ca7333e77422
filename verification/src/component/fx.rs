//! The hash map of the standard library under the hasher of `rustc_hash`, keyed
//! by the key of a type.
//!
//! `FxBuildHasher` is a unit struct whose `build_hasher` returns
//! `FxHasher::default()`: every hasher that it builds starts from the same
//! state, so a key is always found again under the hash that it was stored
//! under, and the map behaves as a map from `u64` keys to values.
use rustc_hash::FxBuildHasher;
use std::collections::HashMap;
use vstd::prelude::*;

verus! {

/// The hasher factory of `rustc_hash`.
#[verifier::external_type_specification]
#[verifier::external_body]
pub struct ExFxBuildHasher(FxBuildHasher);

/// `HashMap::with_hasher` on a `FxBuildHasher`: a map that holds nothing.
#[verifier::external_body]
pub(crate) fn fx_map_new<V>() -> (fresh: HashMap<u64, V, FxBuildHasher>)
    ensures
        (fresh@ == Map::<u64, V>::empty()),
{
    HashMap::with_hasher(FxBuildHasher)
}

/// `HashMap::get`: the value stored under `key`, or `None` where there is none.
#[verifier::external_body]
pub(crate) fn fx_map_get<'a, V>(map: &'a HashMap<u64, V, FxBuildHasher>, key: u64) -> (found:
    Option<&'a V>)
    ensures
        found.is_some() == map@.contains_key(key),
        found.is_some() ==> *found.unwrap() == map@[key],
{
    map.get(&key)
}

/// `HashMap::get_mut`: the value stored under `key`, to be changed in place, or
/// `None` where there is none. Whatever the caller leaves in the value is what
/// the map then holds under `key`; nothing else in the map changes.
#[verifier::external_body]
pub(crate) fn fx_map_get_mut<'a, V>(map: &'a mut HashMap<u64, V, FxBuildHasher>, key: u64) -> (found:
    Option<&'a mut V>)
    ensures
        found.is_some() == old(map)@.contains_key(key),
        match found {
            Some(value) => *value == old(map)@[key] && final(map)@ == old(map)@.insert(
                key,
                *final(value),
            ),
            None => final(map)@ == old(map)@,
        },
{
    map.get_mut(&key)
}

/// `HashMap::insert`: afterwards the map holds `value` under `key` and is
/// otherwise unchanged, and the call returns the value that `key` had before,
/// if it had one.
#[verifier::external_body]
pub(crate) fn fx_map_insert<V>(map: &mut HashMap<u64, V, FxBuildHasher>, key: u64, value: V) -> (
    previous: Option<V>)
    ensures
        final(map)@ == old(map)@.insert(key, value),
        previous.is_some() == old(map)@.contains_key(key),
        previous.is_some() ==> previous.unwrap() == old(map)@[key],
{
    map.insert(key, value)
}

/// `HashMap::remove`: afterwards the map holds nothing under `key` and is
/// otherwise unchanged, and the call returns the value that `key` had before,
/// if it had one.
#[verifier::external_body]
pub(crate) fn fx_map_remove<V>(map: &mut HashMap<u64, V, FxBuildHasher>, key: u64) -> (previous:
    Option<V>)
    ensures
        final(map)@ == old(map)@.remove(key),
        previous.is_some() == old(map)@.contains_key(key),
        previous.is_some() ==> previous.unwrap() == old(map)@[key],
{
    map.remove(&key)
}

/// `HashMap::keys`, collected: every key of the map once, in the order in which
/// the map happens to walk them, of which nothing is said.
#[verifier::external_body]
pub(crate) fn fx_map_keys<V>(map: &HashMap<u64, V, FxBuildHasher>) -> (keys: Vec<u64>)
    ensures
        keys@.no_duplicates(),
        keys@.to_set() == map@.dom(),
{
    map.keys().copied().collect()
}

} // verus!
