//! Trusted boundary around `dashmap`'s concurrent hash map.
//!
//! The registry stores its sessions in a `dashmap::DashMap`, the same
//! concurrency-safe container the service relies on at run time. Verus
//! cannot look inside that type, so this module declares it, names its
//! contents as a mathematical map, and gives each operation the library
//! needs a wrapper whose contract restates what `dashmap`'s source does.

use vstd::prelude::*;

verus! {

/// The concurrent map from server id to `(token, last_activity)`.
///
/// `last_activity` is a timestamp in whole seconds.
pub type ActiveServerMap = dashmap::DashMap<String, (String, u64)>;

#[verifier::external_type_specification]
#[verifier::external_body]
#[verifier::reject_recursive_types(K)]
#[verifier::reject_recursive_types(V)]
#[verifier::reject_recursive_types(S)]
pub struct ExDashMap<K, V, S>(dashmap::DashMap<K, V, S>);

/// What an `ActiveServerMap` holds, as a mathematical map from server id
/// to `(token, last_activity)`.
pub uninterp spec fn map_contents(m: ActiveServerMap) -> Map<Seq<char>, (Seq<char>, u64)>;

/// Relies on `dashmap::DashMap::new`: builds an empty map.
#[verifier::external_body]
pub(crate) fn map_new() -> (r: ActiveServerMap)
    ensures
        (map_contents(r) == Map::<Seq<char>, (Seq<char>, u64)>::empty()),
{
    dashmap::DashMap::new()
}

/// Relies on `dashmap::DashMap::insert`: stores `value` under `key`,
/// replacing any previous value for that key.
#[verifier::external_body]
pub(crate) fn map_insert(m: &mut ActiveServerMap, key: String, token: String, last_activity: u64)
    ensures
        map_contents(*final(m)) == map_contents(*old(m)).insert(key@, (token@, last_activity)),
{
    m.insert(key, (token, last_activity));
}

/// Relies on `dashmap::DashMap::remove`: takes the entry for `key` out of
/// the map and returns its value, or returns `None` if the key is absent.
#[verifier::external_body]
pub(crate) fn map_remove(m: &mut ActiveServerMap, key: &str) -> (r: Option<(String, u64)>)
    ensures
        map_contents(*final(m)) == map_contents(*old(m)).remove(key@),
        r is Some == map_contents(*old(m)).contains_key(key@),
        (r matches Some(v) ==> map_contents(*old(m))[key@] == (v.0@, v.1)),
{
    m.remove(key).map(|kv| kv.1)
}

/// Relies on `dashmap::DashMap::contains_key`.
#[verifier::external_body]
pub(crate) fn map_contains(m: &ActiveServerMap, key: &str) -> (r: bool)
    ensures
        r == map_contents(*m).contains_key(key@),
{
    m.contains_key(key)
}

/// Relies on `dashmap::DashMap::get`: returns a copy of the value stored
/// under `key`, if any.
#[verifier::external_body]
pub(crate) fn map_get(m: &ActiveServerMap, key: &str) -> (r: Option<(String, u64)>)
    ensures
        r is Some == map_contents(*m).contains_key(key@),
        (r matches Some(v) ==> map_contents(*m)[key@] == (v.0@, v.1)),
{
    m.get(key).map(|kv| (kv.value().0.clone(), kv.value().1))
}

/// Relies on `dashmap::DashMap::iter`: with the map borrowed for the whole
/// call, the iterator yields every entry exactly once, in an order that
/// depends on the hasher and so is not pinned here.
#[verifier::external_body]
pub(crate) fn map_snapshot(m: &ActiveServerMap) -> (r: Vec<(String, String, u64)>)
    ensures
        forall|i: int|
            0 <= i < r@.len() ==> map_contents(*m).contains_key((#[trigger] r@[i]).0@)
                && map_contents(*m)[r@[i].0@] == (r@[i].1@, r@[i].2),
        forall|id: Seq<char>|
            map_contents(*m).contains_key(id) ==> exists|i: int|
                0 <= i < r@.len() && (#[trigger] r@[i]).0@ == id,
        forall|i: int, j: int|
            0 <= i < r@.len() && 0 <= j < r@.len() && i != j ==> (#[trigger] r@[i]).0@ != (
            #[trigger] r@[j]).0@,
{
    m.iter().map(|kv| (kv.key().clone(), kv.value().0.clone(), kv.value().1)).collect()
}

} // verus!
