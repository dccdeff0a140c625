//! Trusted interface to the concurrent key-value store.
//!
//! Every component keeps its per-key mutable state in a `dashmap::DashMap`,
//! a sharded concurrent hash map. The map itself is outside code; each
//! instantiation used by the library is given an abstract view (a `Map` from
//! key characters to a plain value) and a small set of wrapper functions
//! whose contracts describe, over that view, what the store's operations do.

use vstd::prelude::*;
use dashmap::DashMap;

verus! {

#[verifier::external_type_specification]
#[verifier::external_body]
#[verifier::reject_recursive_types(K)]
#[verifier::reject_recursive_types(V)]
#[verifier::reject_recursive_types(S)]
pub struct ExDashMap<K, V, S>(DashMap<K, V, S>);

/// Per-service breaker record: consecutive failures, consecutive successes,
/// the instant the circuit opened (none while closed), probes issued while
/// half-open.
pub type BreakerRec = (u32, u32, Option<u64>, u32);

/// What the breaker store holds: one record per service name.
pub uninterp spec fn breaker_map_view(m: DashMap<String, BreakerRec>) -> Map<Seq<char>, BreakerRec>;

/// Relies on dashmap::DashMap::new: a freshly created map holds no entries.
#[verifier::external_body]
pub(crate) fn breaker_map_new() -> (r: DashMap<String, BreakerRec>)
    ensures
        breaker_map_view(r) == (Map::<Seq<char>, BreakerRec>::empty()),
{
    DashMap::new()
}

/// Relies on dashmap::DashMap::get: returns the value stored under the key,
/// if there is one.
#[verifier::external_body]
pub(crate) fn breaker_map_get(m: &DashMap<String, BreakerRec>, key: &str) -> (r: Option<BreakerRec>)
    ensures
        match r {
            Some(v) => breaker_map_view(*m).contains_key(key@) && breaker_map_view(*m)[key@] == v,
            None => !breaker_map_view(*m).contains_key(key@),
        },
{
    m.get(key).map(|v| *v)
}

/// Relies on dashmap::DashMap::insert: afterwards the map holds `v` under the
/// key and is otherwise unchanged.
#[verifier::external_body]
pub(crate) fn breaker_map_set(m: &mut DashMap<String, BreakerRec>, key: &str, v: BreakerRec)
    ensures
        breaker_map_view(*final(m)) == breaker_map_view(*old(m)).insert(key@, v),
{
    m.insert(key.to_string(), v);
}

/// What the rate-window store holds: the recorded request instants per
/// client-and-route key.
pub uninterp spec fn window_map_view(m: DashMap<String, Vec<u64>>) -> Map<Seq<char>, Seq<u64>>;

/// Relies on dashmap::DashMap::new: a freshly created map holds no entries.
#[verifier::external_body]
pub(crate) fn window_map_new() -> (r: DashMap<String, Vec<u64>>)
    ensures
        window_map_view(r) == (Map::<Seq<char>, Seq<u64>>::empty()),
{
    DashMap::new()
}

/// Relies on dashmap::DashMap::get: returns a copy of the window stored
/// under the key, if there is one.
#[verifier::external_body]
pub(crate) fn window_map_get(m: &DashMap<String, Vec<u64>>, key: &str) -> (r: Option<Vec<u64>>)
    ensures
        match r {
            Some(v) => window_map_view(*m).contains_key(key@) && window_map_view(*m)[key@] == v@,
            None => !window_map_view(*m).contains_key(key@),
        },
{
    m.get(key).map(|v| v.clone())
}

/// Relies on dashmap::DashMap::insert: afterwards the map holds `v` under the
/// key and is otherwise unchanged.
#[verifier::external_body]
pub(crate) fn window_map_set(m: &mut DashMap<String, Vec<u64>>, key: &str, v: Vec<u64>)
    ensures
        window_map_view(*final(m)) == window_map_view(*old(m)).insert(key@, v@),
{
    m.insert(key.to_string(), v);
}

/// Relies on dashmap::DashMap::remove: afterwards the map holds nothing under
/// the key and is otherwise unchanged.
#[verifier::external_body]
pub(crate) fn window_map_remove(m: &mut DashMap<String, Vec<u64>>, key: &str)
    ensures
        window_map_view(*final(m)) == window_map_view(*old(m)).remove(key@),
{
    m.remove(key);
}

/// Relies on dashmap::DashMap::iter: visits every entry exactly once while
/// the map is not mutated, so the collected keys list each stored key once.
#[verifier::external_body]
pub(crate) fn window_map_keys(m: &DashMap<String, Vec<u64>>) -> (r: Vec<String>)
    ensures
        forall|k: Seq<char>| window_map_view(*m).contains_key(k)
            <==> exists|i: int| 0 <= i < r@.len() && #[trigger] r@[i]@ == k,
        forall|i: int, j: int| 0 <= i < j < r@.len() ==> r@[i]@ != r@[j]@,
{
    m.iter().map(|e| e.key().clone()).collect()
}

/// One cached response: payload bytes, status code, content type, and the
/// epoch second at which the entry expires.
pub type CacheSlot = (Vec<u8>, u16, String, u64);

/// The view of one cached response.
pub type CacheSlotView = (Seq<u8>, u16, Seq<char>, u64);

/// What the response-cache store holds: one slot per composite request key.
pub uninterp spec fn cache_map_view(m: DashMap<String, CacheSlot>) -> Map<Seq<char>, CacheSlotView>;

/// Relies on dashmap::DashMap::new: a freshly created map holds no entries.
#[verifier::external_body]
pub(crate) fn cache_map_new() -> (r: DashMap<String, CacheSlot>)
    ensures
        cache_map_view(r) == (Map::<Seq<char>, CacheSlotView>::empty()),
{
    DashMap::new()
}

/// Relies on dashmap::DashMap::get: returns a copy of the slot stored under
/// the key, if there is one.
#[verifier::external_body]
pub(crate) fn cache_map_get(m: &DashMap<String, CacheSlot>, key: &str) -> (r: Option<CacheSlot>)
    ensures
        match r {
            Some(v) => cache_map_view(*m).contains_key(key@)
                && cache_map_view(*m)[key@] == (v.0@, v.1, v.2@, v.3),
            None => !cache_map_view(*m).contains_key(key@),
        },
{
    m.get(key).map(|v| v.clone())
}

/// Relies on dashmap::DashMap::insert: afterwards the map holds `v` under the
/// key and is otherwise unchanged.
#[verifier::external_body]
pub(crate) fn cache_map_set(m: &mut DashMap<String, CacheSlot>, key: &str, v: CacheSlot)
    ensures
        cache_map_view(*final(m)) == cache_map_view(*old(m)).insert(key@, (v.0@, v.1, v.2@, v.3)),
{
    m.insert(key.to_string(), v);
}

/// Relies on dashmap::DashMap::remove: afterwards the map holds nothing under
/// the key and is otherwise unchanged.
#[verifier::external_body]
pub(crate) fn cache_map_remove(m: &mut DashMap<String, CacheSlot>, key: &str)
    ensures
        cache_map_view(*final(m)) == cache_map_view(*old(m)).remove(key@),
{
    m.remove(key);
}

/// Relies on dashmap::DashMap::len: the number of entries the map holds.
#[verifier::external_body]
pub(crate) fn cache_map_len(m: &DashMap<String, CacheSlot>) -> (r: usize)
    ensures
        cache_map_view(*m).dom().finite() ==> r == cache_map_view(*m).dom().len(),
{
    m.len()
}

/// Relies on dashmap::DashMap::iter: visits every entry exactly once while
/// the map is not mutated, so the collected keys list each stored key once.
#[verifier::external_body]
pub(crate) fn cache_map_keys(m: &DashMap<String, CacheSlot>) -> (r: Vec<String>)
    ensures
        forall|k: Seq<char>| cache_map_view(*m).contains_key(k)
            <==> exists|i: int| 0 <= i < r@.len() && #[trigger] r@[i]@ == k,
        forall|i: int, j: int| 0 <= i < j < r@.len() ==> r@[i]@ != r@[j]@,
{
    m.iter().map(|e| e.key().clone()).collect()
}

} // verus!
