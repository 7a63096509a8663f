//! The concurrent map that backs the database, and what the library
//! relies on of it.
//!
//! Keys and values are held as bytes: a client puts its own keys and
//! values into bytes before they travel, and the database compares keys
//! by those bytes.

use vstd::prelude::*;
use dashmap::DashMap;

verus! {

/// The sharded concurrent map of the `dashmap` crate.
#[verifier::external_type_specification]
#[verifier::external_body]
#[verifier::reject_recursive_types(K)]
#[verifier::reject_recursive_types(V)]
#[verifier::reject_recursive_types(S)]
pub struct ExDashMap<K, V, S>(dashmap::DashMap<K, V, S>);

/// The entries that a byte-keyed `DashMap` holds, each key and value taken
/// by its bytes.
pub uninterp spec fn map_contents(m: DashMap<Vec<u8>, Vec<u8>>) -> Map<Seq<u8>, Seq<u8>>;

/// What a map holds under `key`, if anything.
pub open spec fn lookup(entries: Map<Seq<u8>, Seq<u8>>, key: Seq<u8>) -> Option<Seq<u8>> {
    if entries.contains_key(key) {
        Some(entries[key])
    } else {
        None
    }
}

/// The bytes of an optional byte string.
pub open spec fn opt_bytes(value: Option<Vec<u8>>) -> Option<Seq<u8>> {
    match value {
        Some(bytes) => Some(bytes@),
        None => None,
    }
}

/// `DashMap::new`: a map with no entries.
#[verifier::external_body]
pub(crate) fn shared_map_new() -> (fresh: DashMap<Vec<u8>, Vec<u8>>)
    ensures
        map_contents(fresh) =~= Map::empty(),
{
    DashMap::new()
}

/// `DashMap::get`, with the value found copied out of the entry guard:
/// the value stored under the key, or `None` where the key is absent.
/// The map is left as it was.
#[verifier::external_body]
pub(crate) fn shared_map_get(map: &DashMap<Vec<u8>, Vec<u8>>, key: &Vec<u8>) -> (found: Option<Vec<u8>>)
    ensures
        opt_bytes(found) == lookup(map_contents(*map), key@),
{
    match map.get(key) {
        Some(entry) => Some(entry.value().clone()),
        None => None,
    }
}

/// `DashMap::insert`: the key now maps to the value, every other entry
/// stays, and the value that the key held before, if any, comes back.
/// The map is reached through `&mut` here so that no other reference
/// can observe it while it changes.
#[verifier::external_body]
pub(crate) fn shared_map_insert(map: &mut DashMap<Vec<u8>, Vec<u8>>, key: Vec<u8>, value: Vec<u8>) -> (previous: Option<Vec<u8>>)
    ensures
        map_contents(*final(map)) == map_contents(*old(map)).insert(key@, value@),
        opt_bytes(previous) == lookup(map_contents(*old(map)), key@),
{
    map.insert(key, value)
}

/// `DashMap::remove`: the entry under the key leaves the map, every other
/// entry stays, and the removed key and value come back (`None` where the
/// key was absent).
#[verifier::external_body]
pub(crate) fn shared_map_remove(map: &mut DashMap<Vec<u8>, Vec<u8>>, key: &Vec<u8>) -> (removed: Option<(Vec<u8>, Vec<u8>)>)
    ensures
        map_contents(*final(map)) == map_contents(*old(map)).remove(key@),
        match removed {
            Some((k, v)) => lookup(map_contents(*old(map)), key@) == Some(v@) && k@ == key@,
            None => lookup(map_contents(*old(map)), key@) is None,
        },
{
    map.remove(key)
}

} // verus!
