//! Trusted view of the concurrent map that holds the per-service API keys.
//!
//! The keys live in a `dashmap::DashMap<u64, String>`; the `u64` key is the
//! integer tag of an [`crate::ApiType`]. The map itself is outside code, so
//! its contents are modelled by the uninterpreted function [`key_map`], and
//! the few methods the key store needs are wrapped with contracts stated over
//! that model.

use vstd::prelude::*;

verus! {

/// `dashmap::DashMap` declared for Verus; values of it are opaque.
#[verifier::external_type_specification]
#[verifier::external_body]
#[verifier::reject_recursive_types(K)]
#[verifier::reject_recursive_types(V)]
#[verifier::reject_recursive_types(S)]
pub struct ExDashMap<K, V, S>(dashmap::DashMap<K, V, S>);

/// The entries a key map holds, as a mathematical map from integer tag to the
/// characters of the stored key.
pub uninterp spec fn key_map(m: dashmap::DashMap<u64, String>) -> Map<u64, Seq<char>>;

/// The model of a key map with no entries.
pub open spec fn no_keys() -> Map<u64, Seq<char>> {
    Map::empty()
}

/// Relies on `dashmap::DashMap::new`: the map starts with no entries.
#[verifier::external_body]
pub(crate) fn key_map_new() -> (r: dashmap::DashMap<u64, String>)
    ensures
        key_map(r) == no_keys(),
{
    dashmap::DashMap::new()
}

/// Relies on `dashmap::DashMap::get`: returns the value stored under the key,
/// if any. The value is cloned out of the map's guarded reference.
#[verifier::external_body]
pub(crate) fn key_map_get(m: &dashmap::DashMap<u64, String>, k: u64) -> (r: Option<String>)
    ensures
        match r {
            Some(v) => key_map(*m).contains_key(k) && v@ == key_map(*m)[k],
            None => !key_map(*m).contains_key(k),
        },
{
    match m.get(&k) {
        Some(entry) => Some(entry.value().clone()),
        None => None,
    }
}

/// Relies on `dashmap::DashMap::insert`: stores the value under the key,
/// returning the previously stored value, if any.
#[verifier::external_body]
pub(crate) fn key_map_insert(m: &mut dashmap::DashMap<u64, String>, k: u64, v: String) -> (r:
    Option<String>)
    ensures
        key_map(*final(m)) == key_map(*old(m)).insert(k, v@),
        match r {
            Some(prev) => key_map(*old(m)).contains_key(k) && prev@ == key_map(*old(m))[k],
            None => !key_map(*old(m)).contains_key(k),
        },
{
    m.insert(k, v)
}

} // verus!
