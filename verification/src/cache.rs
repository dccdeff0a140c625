//! TTL response cache with a bounded store.
//!
//! Successful responses are cached under a composite key; reads treat
//! entries past their expiry as misses and drop them, and writes keep the
//! store under its configured maximum by evicting a bounded batch (expired
//! entries first, then arbitrary ones) before inserting.

use vstd::prelude::*;
use vstd::string::StrSliceExecFns;
use vstd::string::StringExecFns;
use dashmap::DashMap;

use crate::kvstore::CacheSlot;
use crate::kvstore::CacheSlotView;
use crate::kvstore::cache_map_view;
use crate::kvstore::cache_map_new;
use crate::kvstore::cache_map_get;
use crate::kvstore::cache_map_set;
use crate::kvstore::cache_map_remove;
use crate::kvstore::cache_map_len;
use crate::kvstore::cache_map_keys;
use crate::text::contains_seq;
use crate::text::starts_with;
use crate::text::str_starts_with;
use crate::text::str_contains;

verus! {

/// Cache configuration.
#[derive(Clone, Copy, Debug)]
pub struct CacheConfig {
    /// Lifetime of an ordinary cached response, in seconds.
    pub default_ttl_secs: u64,
    /// Lifetime of a cached authentication verification, in seconds.
    pub auth_ttl_secs: u64,
    /// Lifetime of a cached search response, in seconds.
    pub search_ttl_secs: u64,
    /// Maximum entries the store may hold.
    pub max_entries: usize,
    /// Whether caching is enabled at all.
    pub enabled: bool,
}

impl Default for CacheConfig {
    /// One minute by default, five minutes for authentication lookups,
    /// thirty seconds for search, ten thousand entries at most.
    fn default() -> (r: Self)
        ensures
            r.default_ttl_secs == 60,
            r.auth_ttl_secs == 300,
            r.search_ttl_secs == 30,
            r.max_entries == 10000,
            r.enabled,
    {
        CacheConfig {
            default_ttl_secs: 60,
            auth_ttl_secs: 300,
            search_ttl_secs: 30,
            max_entries: 10000,
            enabled: true,
        }
    }
}

/// Increment that stops at the largest counter value instead of wrapping.
pub open spec fn sat_inc64(x: u64) -> u64 {
    if x == u64::MAX { x } else { (x + 1) as u64 }
}

/// The composite key a response is cached under: method, path, normalized
/// query, and the caller identity or the shared anonymous bucket.
pub open spec fn spec_cache_key(
    method: Seq<char>,
    path: Seq<char>,
    query: Option<&str>,
    user_id: Option<&str>,
) -> Seq<char> {
    "cache:"@ + method + ":"@ + path + ":"@ + (match query {
        Some(q) => q@,
        None => Seq::empty(),
    }) + ":"@ + (match user_id {
        Some(u) => u@,
        None => "anon"@,
    })
}

/// In-memory response cache over the concurrent key-value store.
pub struct ResponseCache {
    entries: DashMap<String, CacheSlot>,
    config: CacheConfig,
    hits: u64,
    misses: u64,
}

impl ResponseCache {
    /// The stored slots, keyed by composite request key.
    pub closed spec fn entries_view(&self) -> Map<Seq<char>, CacheSlotView> {
        cache_map_view(self.entries)
    }

    /// The configuration the cache runs under.
    pub closed spec fn cfg(&self) -> CacheConfig {
        self.config
    }

    /// How many reads were answered from a live entry.
    pub closed spec fn spec_hits(&self) -> u64 {
        self.hits
    }

    /// How many reads found only an expired entry.
    pub closed spec fn spec_misses(&self) -> u64 {
        self.misses
    }

    /// Well-formedness: the store is finite and never exceeds its maximum,
    /// and a maximum of at least one entry is configured.
    pub open spec fn wf(&self) -> bool {
        &&& self.entries_view().dom().finite()
        &&& self.entries_view().dom().len() <= self.cfg().max_entries
        &&& self.cfg().max_entries >= 1
    }

    /// Create an empty cache.
    pub fn new(config: CacheConfig) -> (r: Self)
        requires
            config.max_entries >= 1,
        ensures
            r.wf(),
            r.cfg() == config,
            r.entries_view() == (Map::<Seq<char>, CacheSlotView>::empty()),
            r.spec_hits() == 0,
            r.spec_misses() == 0,
    {
        let r = ResponseCache { entries: cache_map_new(), config, hits: 0, misses: 0 };
        proof {
            broadcast use vstd::set::axiom_set_empty_len;
            assert(r.entries_view().dom() =~= Set::<Seq<char>>::empty());
        }
        r
    }

    /// Build a cache key from method, path, query and caller identity.
    pub fn build_key(method: &str, path: &str, query: Option<&str>, user_id: Option<&str>) -> (r: String)
        ensures
            r@ == spec_cache_key(method@, path@, query, user_id),
    {
        let mut out = String::from_str("cache:");
        out.append(method);
        out.append(":");
        out.append(path);
        out.append(":");
        match query {
            Some(q) => out.append(q),
            None => (),
        }
        out.append(":");
        match user_id {
            Some(u) => out.append(u),
            None => out.append("anon"),
        }
        proof {
            assert(out@ =~= spec_cache_key(method@, path@, query, user_id));
        }
        out
    }

    /// The lifetime a response under this path gets: authentication paths
    /// keep their responses longest, search paths the shortest time, and
    /// every other path the default.
    pub open spec fn spec_ttl_for_path(&self, path: Seq<char>) -> u64 {
        if contains_seq(path, "/verify"@) || contains_seq(path, "/auth"@) {
            self.cfg().auth_ttl_secs
        } else if contains_seq(path, "/search"@) {
            self.cfg().search_ttl_secs
        } else {
            self.cfg().default_ttl_secs
        }
    }

    /// Get the TTL that applies to a path.
    pub fn ttl_for_path(&self, path: &str) -> (r: u64)
        ensures
            r == self.spec_ttl_for_path(path@),
    {
        if str_contains(path, "/verify") || str_contains(path, "/auth") {
            self.config.auth_ttl_secs
        } else if str_contains(path, "/search") {
            self.config.search_ttl_secs
        } else {
            self.config.default_ttl_secs
        }
    }

    /// Try to get a cached response: the payload, status and content type
    /// stored under the key, provided the entry has not expired. An expired
    /// entry is removed and counted as a miss.
    pub fn get(&mut self, key: &str, now: u64) -> (r: Option<(Vec<u8>, u16, String)>)
        requires
            old(self).wf(),
        ensures
            final(self).wf(),
            final(self).cfg() == old(self).cfg(),
            ({
                let v = old(self).entries_view();
                if !old(self).cfg().enabled {
                    &&& r is None
                    &&& final(self).entries_view() == v
                    &&& final(self).spec_hits() == old(self).spec_hits()
                    &&& final(self).spec_misses() == old(self).spec_misses()
                } else if v.contains_key(key@) && now < v[key@].3 {
                    &&& (r matches Some(out) && out.0@ == v[key@].0 && out.1 == v[key@].1
                        && out.2@ == v[key@].2)
                    &&& final(self).entries_view() == v
                    &&& final(self).spec_hits() == sat_inc64(old(self).spec_hits())
                    &&& final(self).spec_misses() == old(self).spec_misses()
                } else if v.contains_key(key@) {
                    &&& r is None
                    &&& final(self).entries_view() == v.remove(key@)
                    &&& final(self).spec_hits() == old(self).spec_hits()
                    &&& final(self).spec_misses() == sat_inc64(old(self).spec_misses())
                } else {
                    &&& r is None
                    &&& final(self).entries_view() == v
                    &&& final(self).spec_hits() == old(self).spec_hits()
                    &&& final(self).spec_misses() == old(self).spec_misses()
                }
            }),
    {
        if !self.config.enabled {
            return None;
        }
        match cache_map_get(&self.entries, key) {
            Some(slot) => {
                if now < slot.3 {
                    self.hits = if self.hits == u64::MAX { self.hits } else { self.hits + 1 };
                    Some((slot.0, slot.1, slot.2))
                } else {
                    cache_map_remove(&mut self.entries, key);
                    self.misses = if self.misses == u64::MAX { self.misses } else { self.misses + 1 };
                    proof {
                        broadcast use vstd::set::axiom_set_remove_len;
                        broadcast use vstd::set::axiom_set_remove_finite;
                    }
                    None
                }
            },
            None => None,
        }
    }

    /// Store a response under a key for `ttl_secs` seconds.
    ///
    /// When the store is at its maximum, a bounded batch (a tenth of the
    /// maximum, at least one entry) is evicted first, expired entries ahead
    /// of live ones and otherwise in no particular order, so the store never
    /// exceeds its maximum afterwards.
    pub fn set(&mut self, key: &str, data: Vec<u8>, status: u16, content_type: &str, ttl_secs: u64, now: u64)
        requires
            old(self).wf(),
            now + ttl_secs <= u64::MAX,
        ensures
            final(self).wf(),
            final(self).cfg() == old(self).cfg(),
            final(self).spec_hits() == old(self).spec_hits(),
            final(self).spec_misses() == old(self).spec_misses(),
            !old(self).cfg().enabled ==> final(self).entries_view() == old(self).entries_view(),
            old(self).cfg().enabled ==> final(self).entries_view().contains_key(key@)
                && final(self).entries_view()[key@] == (data@, status, content_type@, (now + ttl_secs) as u64),
            old(self).cfg().enabled ==> (forall|k: Seq<char>|
                k != key@ && #[trigger] final(self).entries_view().contains_key(k)
                    ==> old(self).entries_view().contains_key(k)
                        && final(self).entries_view()[k] == old(self).entries_view()[k]),
            old(self).cfg().enabled && old(self).entries_view().dom().len() < old(self).cfg().max_entries
                ==> final(self).entries_view() == old(self).entries_view().insert(
                    key@,
                    ((data@, status, content_type@, (now + ttl_secs) as u64)),
                ),
    {
        proof {
            broadcast use vstd::set::axiom_set_insert_len;
            broadcast use vstd::set::axiom_set_remove_len;
            broadcast use vstd::set::axiom_set_insert_finite;
            broadcast use vstd::set::axiom_set_remove_finite;
            broadcast use vstd::set::axiom_set_empty_len;
        }
        if !self.config.enabled {
            return;
        }
        let len = cache_map_len(&self.entries);
        if len >= self.config.max_entries {
            let mut batch = self.config.max_entries / 10;
            if batch == 0 {
                batch = 1;
            }
            let target = self.config.max_entries - batch;
            let keys = cache_map_keys(&self.entries);
            let ghost orig = cache_map_view(self.entries);
            let mut cur = len;
            let mut i: usize = 0;
            while i < keys.len()
                invariant
                    forall|a: int, b: int| 0 <= a < b < keys@.len() ==> keys@[a]@ != keys@[b]@,
                    i <= keys@.len(),
                    self.entries_view().dom().finite(),
                    cur == self.entries_view().dom().len(),
                    forall|k: Seq<char>| #[trigger] self.entries_view().contains_key(k)
                        ==> orig.contains_key(k) && self.entries_view()[k] == orig[k],
                    self.cfg() == old(self).cfg(),
                    self.spec_hits() == old(self).spec_hits(),
                    self.spec_misses() == old(self).spec_misses(),
                decreases keys@.len() - i,
            {
                if cur > target {
                    let k = &keys[i];
                    match cache_map_get(&self.entries, k.as_str()) {
                        Some(slot) => {
                            if slot.3 <= now {
                                cache_map_remove(&mut self.entries, k.as_str());
                                cur = cur - 1;
                            }
                        },
                        None => {},
                    }
                }
                i = i + 1;
            }
            let mut j: usize = 0;
            while j < keys.len()
                invariant
                    forall|a: int, b: int| 0 <= a < b < keys@.len() ==> keys@[a]@ != keys@[b]@,
                    forall|k: Seq<char>| orig.contains_key(k)
                        <==> exists|a: int| 0 <= a < keys@.len() && #[trigger] keys@[a]@ == k,
                    j <= keys@.len(),
                    self.entries_view().dom().finite(),
                    cur == self.entries_view().dom().len(),
                    forall|k: Seq<char>| #[trigger] self.entries_view().contains_key(k)
                        ==> orig.contains_key(k) && self.entries_view()[k] == orig[k],
                    cur <= target || (forall|a: int| 0 <= a < j
                        ==> !self.entries_view().contains_key(#[trigger] keys@[a]@)),
                    self.cfg() == old(self).cfg(),
                    self.spec_hits() == old(self).spec_hits(),
                    self.spec_misses() == old(self).spec_misses(),
                decreases keys@.len() - j,
            {
                if cur > target {
                    let k = &keys[j];
                    match cache_map_get(&self.entries, k.as_str()) {
                        Some(slot) => {
                            cache_map_remove(&mut self.entries, k.as_str());
                            cur = cur - 1;
                        },
                        None => {},
                    }
                }
                j = j + 1;
            }
            proof {
                if cur > target {
                    assert forall|k: Seq<char>| !self.entries_view().contains_key(k) by {
                        if self.entries_view().contains_key(k) {
                            assert(orig.contains_key(k));
                            let a = choose|a: int| 0 <= a < keys@.len() && #[trigger] keys@[a]@ == k;
                            assert(!self.entries_view().contains_key(keys@[a]@));
                        }
                    }
                    assert(self.entries_view().dom() =~= Set::<Seq<char>>::empty());
                    assert(cur == 0);
                }
                assert(cur <= target);
            }
        }
        cache_map_set(
            &mut self.entries,
            key,
            (data, status, String::from_str(content_type), now + ttl_secs),
        );
    }

    /// Drop every entry whose key begins with the prefix, leaving the rest
    /// untouched.
    pub fn invalidate_prefix(&mut self, prefix: &str)
        requires
            old(self).wf(),
        ensures
            final(self).wf(),
            final(self).cfg() == old(self).cfg(),
            final(self).spec_hits() == old(self).spec_hits(),
            final(self).spec_misses() == old(self).spec_misses(),
            forall|k: Seq<char>| #[trigger] final(self).entries_view().contains_key(k)
                <==> old(self).entries_view().contains_key(k) && !starts_with(k, prefix@),
            forall|k: Seq<char>| #[trigger] final(self).entries_view().contains_key(k)
                ==> final(self).entries_view()[k] == old(self).entries_view()[k],
    {
        proof {
            broadcast use vstd::set::axiom_set_remove_len;
            broadcast use vstd::set::axiom_set_remove_finite;
        }
        let keys = cache_map_keys(&self.entries);
        let ghost orig = cache_map_view(self.entries);
        let mut idx: usize = 0;
        while idx < keys.len()
            invariant
                forall|a: int, b: int| 0 <= a < b < keys@.len() ==> keys@[a]@ != keys@[b]@,
                forall|k: Seq<char>| orig.contains_key(k)
                    <==> exists|a: int| 0 <= a < keys@.len() && #[trigger] keys@[a]@ == k,
                idx <= keys@.len(),
                self.entries_view().dom().finite(),
                self.entries_view().dom().len() <= orig.dom().len(),
                orig.dom().finite(),
                orig.dom().len() <= old(self).cfg().max_entries,
                forall|k: Seq<char>| #[trigger] self.entries_view().contains_key(k)
                    ==> orig.contains_key(k) && self.entries_view()[k] == orig[k],
                forall|a: int| 0 <= a < idx ==> (
                    #[trigger] self.entries_view().contains_key(keys@[a]@)
                        <==> !starts_with(keys@[a]@, prefix@)
                ),
                forall|a: int| idx <= a < keys@.len()
                    ==> #[trigger] self.entries_view().contains_key(keys@[a]@),
                self.cfg() == old(self).cfg(),
                self.spec_hits() == old(self).spec_hits(),
                self.spec_misses() == old(self).spec_misses(),
            decreases keys@.len() - idx,
        {
            let key = &keys[idx];
            let ghost kk = keys@[idx as int]@;
            proof {
                assert forall|a: int| 0 <= a < keys@.len() && a != idx implies #[trigger] keys@[a]@ != kk by {
                    if a < idx {
                        assert(keys@[a]@ != keys@[idx as int]@);
                    } else {
                        assert(keys@[idx as int]@ != keys@[a]@);
                    }
                }
            }
            if str_starts_with(key.as_str(), prefix) {
                cache_map_remove(&mut self.entries, key.as_str());
            }
            proof {
                assert forall|a: int| idx + 1 <= a < keys@.len() implies
                    #[trigger] self.entries_view().contains_key(keys@[a]@) by {
                    assert(keys@[a]@ != kk);
                }
            }
            idx = idx + 1;
        }
        proof {
            assert forall|k: Seq<char>| #[trigger] self.entries_view().contains_key(k)
                <==> orig.contains_key(k) && !starts_with(k, prefix@) by {
                if orig.contains_key(k) {
                    let a = choose|a: int| 0 <= a < keys@.len() && #[trigger] keys@[a]@ == k;
                }
            }
        }
    }

    /// Drop every entry already past its expiry, leaving live entries
    /// untouched: the background sweep that bounds memory even when no
    /// reads come in.
    pub fn sweep_expired(&mut self, now: u64)
        requires
            old(self).wf(),
        ensures
            final(self).wf(),
            final(self).cfg() == old(self).cfg(),
            final(self).spec_hits() == old(self).spec_hits(),
            final(self).spec_misses() == old(self).spec_misses(),
            forall|k: Seq<char>| #[trigger] final(self).entries_view().contains_key(k)
                <==> old(self).entries_view().contains_key(k)
                    && old(self).entries_view()[k].3 > now,
            forall|k: Seq<char>| #[trigger] final(self).entries_view().contains_key(k)
                ==> final(self).entries_view()[k] == old(self).entries_view()[k],
    {
        proof {
            broadcast use vstd::set::axiom_set_remove_len;
            broadcast use vstd::set::axiom_set_remove_finite;
        }
        let keys = cache_map_keys(&self.entries);
        let ghost orig = cache_map_view(self.entries);
        let mut idx: usize = 0;
        while idx < keys.len()
            invariant
                forall|a: int, b: int| 0 <= a < b < keys@.len() ==> keys@[a]@ != keys@[b]@,
                forall|k: Seq<char>| orig.contains_key(k)
                    <==> exists|a: int| 0 <= a < keys@.len() && #[trigger] keys@[a]@ == k,
                idx <= keys@.len(),
                self.entries_view().dom().finite(),
                self.entries_view().dom().len() <= orig.dom().len(),
                orig.dom().finite(),
                orig.dom().len() <= old(self).cfg().max_entries,
                forall|k: Seq<char>| #[trigger] self.entries_view().contains_key(k)
                    ==> orig.contains_key(k) && self.entries_view()[k] == orig[k],
                forall|a: int| 0 <= a < idx ==> (
                    #[trigger] self.entries_view().contains_key(keys@[a]@)
                        <==> orig[keys@[a]@].3 > now
                ),
                forall|a: int| idx <= a < keys@.len()
                    ==> #[trigger] self.entries_view().contains_key(keys@[a]@),
                self.cfg() == old(self).cfg(),
                self.spec_hits() == old(self).spec_hits(),
                self.spec_misses() == old(self).spec_misses(),
            decreases keys@.len() - idx,
        {
            let key = &keys[idx];
            let ghost kk = keys@[idx as int]@;
            proof {
                assert forall|a: int| 0 <= a < keys@.len() && a != idx implies #[trigger] keys@[a]@ != kk by {
                    if a < idx {
                        assert(keys@[a]@ != keys@[idx as int]@);
                    } else {
                        assert(keys@[idx as int]@ != keys@[a]@);
                    }
                }
            }
            match cache_map_get(&self.entries, key.as_str()) {
                Some(slot) => {
                    if slot.3 <= now {
                        cache_map_remove(&mut self.entries, key.as_str());
                    }
                },
                None => {},
            }
            proof {
                assert forall|a: int| idx + 1 <= a < keys@.len() implies
                    #[trigger] self.entries_view().contains_key(keys@[a]@) by {
                    assert(keys@[a]@ != kk);
                }
            }
            idx = idx + 1;
        }
        proof {
            assert forall|k: Seq<char>| #[trigger] self.entries_view().contains_key(k)
                <==> orig.contains_key(k) && orig[k].3 > now by {
                if orig.contains_key(k) {
                    let a = choose|a: int| 0 <= a < keys@.len() && #[trigger] keys@[a]@ == k;
                }
            }
        }
    }

    /// Cache statistics: hits, misses, and the number of stored entries.
    pub fn stats(&self) -> (r: (u64, u64, usize))
        requires
            self.wf(),
        ensures
            r.0 == self.spec_hits(),
            r.1 == self.spec_misses(),
            r.2 == self.entries_view().dom().len(),
    {
        (self.hits, self.misses, cache_map_len(&self.entries))
    }
}

} // verus!
