//! Sliding-window rate limiting.
//!
//! Requests are grouped into route buckets (search, sources, sync, default),
//! each with its own limit over a trailing time window.

use vstd::prelude::*;
use vstd::string::StrSliceExecFns;
use vstd::string::StringExecFns;
use dashmap::DashMap;

use crate::kvstore::window_map_view;
use crate::kvstore::window_map_new;
use crate::kvstore::window_map_get;
use crate::kvstore::window_map_set;
use crate::kvstore::window_map_remove;
use crate::kvstore::window_map_keys;
use crate::text::contains_seq;
use crate::text::str_contains;
use crate::text::first_segment;
use crate::text::trimmed;
use crate::text::first_comma_segment;
use crate::text::trim_spaces;

verus! {

/// Limits applied per route bucket over one trailing window.
pub struct RateLimitConfig {
    /// Limit for paths that fall into no named bucket.
    pub default_limit: u32,
    /// Limit for search paths.
    pub search_limit: u32,
    /// Limit for source-management paths.
    pub sources_limit: u32,
    /// Limit for sync-trigger paths.
    pub sync_limit: u32,
    /// Length of the sliding window in seconds.
    pub window_secs: u64,
    /// When set, every request is admitted without being counted.
    pub skip_rate_limiting: bool,
}

impl RateLimitConfig {
    /// The limit that applies to a request path: the first bucket whose
    /// marker occurs in the path wins, in the order search, sources, sync.
    pub open spec fn spec_limit_for_path(&self, path: Seq<char>) -> u32 {
        if contains_seq(path, "/search"@) {
            self.search_limit
        } else if contains_seq(path, "/sources"@) {
            self.sources_limit
        } else if contains_seq(path, "/sync"@) {
            self.sync_limit
        } else {
            self.default_limit
        }
    }

    /// Get limit for an endpoint path.
    pub fn get_limit_for_path(&self, path: &str) -> (r: u32)
        ensures
            r == self.spec_limit_for_path(path@),
    {
        if str_contains(path, "/search") {
            self.search_limit
        } else if str_contains(path, "/sources") {
            self.sources_limit
        } else if str_contains(path, "/sync") {
            self.sync_limit
        } else {
            self.default_limit
        }
    }
}

/// Rate limit info for response headers.
#[derive(Clone, Copy, Debug)]
pub struct RateLimitInfo {
    /// The limit that applied to the request.
    pub limit: u32,
    /// How many further requests the window still admits.
    pub remaining: u32,
    /// The epoch second at which the current window ends.
    pub reset: u64,
}

/// The outcome of one admission check.
#[derive(Clone, Copy, Debug)]
pub enum RateDecision {
    /// The request is admitted.
    Allowed(RateLimitInfo),
    /// The request exceeds the limit for its window.
    Rejected(RateLimitInfo),
}

/// The request path with every separator flattened, so the store key stays
/// a single token.
pub open spec fn sanitize_path(path: Seq<char>) -> Seq<char> {
    path.map_values(|c: char| if c == '/' { '_' } else { c })
}

/// The store key for one client identity and one route.
pub open spec fn spec_rate_key(client: Seq<char>, path: Seq<char>) -> Seq<char> {
    "ratelimit:"@ + client + ":"@ + sanitize_path(path)
}

/// Build the store key for a client identity and a route path.
pub fn rate_key(client_id: &str, path: &str) -> (r: String)
    ensures
        r@ == spec_rate_key(client_id@, path@),
{
    let mut out = String::from_str("ratelimit:");
    out.append(client_id);
    out.append(":");
    let n = path.unicode_len();
    let mut i: usize = 0;
    while i < n
        invariant
            n == path@.len(),
            i <= n,
            out@ == "ratelimit:"@ + client_id@ + ":"@ + sanitize_path(path@.take(i as int)),
        decreases n - i,
    {
        let c = path.get_char(i);
        if c == '/' {
            out.append("_");
            proof {
                reveal_strlit("_");
                assert("_"@ =~= seq!['_']);
            }
        } else {
            let piece = path.substring_char(i, i + 1);
            assert(piece@ =~= seq![path@[i as int]]);
            out.append(piece);
        }
        proof {
            assert(path@.take(i + 1) =~= path@.take(i as int).push(path@[i as int]));
            assert(sanitize_path(path@.take(i + 1)) =~= sanitize_path(path@.take(i as int)).push(
                if path@[i as int] == '/' { '_' } else { path@[i as int] },
            ));
        }
        i = i + 1;
    }
    proof {
        assert(path@.take(n as int) =~= path@);
    }
    out
}

/// Whether an instant still lies inside the trailing window that ends `now`.
pub open spec fn live_pred(window_secs: u64, now: u64) -> spec_fn(u64) -> bool {
    |t: u64| t + window_secs > now
}

/// The window with every instant outside the trailing window removed.
pub open spec fn pruned_window(w: Seq<u64>, window_secs: u64, now: u64) -> Seq<u64> {
    w.filter(live_pred(window_secs, now))
}

fn prune_vec(v: &Vec<u64>, window_secs: u64, now: u64) -> (r: Vec<u64>)
    ensures
        r@ == pruned_window(v@, window_secs, now),
{
    let mut out: Vec<u64> = Vec::new();
    let mut i: usize = 0;
    while i < v.len()
        invariant
            i <= v@.len(),
            out@ == pruned_window(v@.take(i as int), window_secs, now),
        decreases v@.len() - i,
    {
        let t = v[i];
        if (t as u128) + (window_secs as u128) > (now as u128) {
            out.push(t);
        }
        proof {
            reveal(Seq::filter);
            assert(v@.take(i + 1) =~= v@.take(i as int).push(v@[i as int]));
            assert(v@.take(i + 1).drop_last() =~= v@.take(i as int));
        }
        i = i + 1;
    }
    proof {
        assert(v@.take(v@.len() as int) =~= v@);
    }
    out
}

/// Sliding-window rate limiter over the concurrent key-value store.
///
/// Each client-and-route key maps to the instants of its recent requests;
/// an admission check prunes the instants that fell out of the window,
/// records the present request whatever the outcome, and admits it only
/// when the window holds no more than `limit` requests afterwards.
pub struct RateLimiter {
    windows: DashMap<String, Vec<u64>>,
}

impl RateLimiter {
    /// The recorded windows, keyed by client-and-route key.
    pub closed spec fn windows_view(&self) -> Map<Seq<char>, Seq<u64>> {
        window_map_view(self.windows)
    }

    /// The window stored under a key; a key never seen has an empty window.
    pub open spec fn window_of(&self, key: Seq<char>) -> Seq<u64> {
        if self.windows_view().contains_key(key) {
            self.windows_view()[key]
        } else {
            Seq::empty()
        }
    }

    /// Create a limiter with no recorded requests.
    pub fn new() -> (r: Self)
        ensures
            r.windows_view() == (Map::<Seq<char>, Seq<u64>>::empty()),
    {
        RateLimiter { windows: window_map_new() }
    }

    /// Check one request against its window and record it.
    ///
    /// The request is recorded whether or not it is admitted, so a breach
    /// of the limit stays visible in the following window.
    pub fn check_and_record(
        &mut self,
        client_id: &str,
        path: &str,
        limit: u32,
        window_secs: u64,
        now: u64,
    ) -> (r: RateDecision)
        requires
            now + window_secs <= u64::MAX,
        ensures
            ({
                let key = spec_rate_key(client_id@, path@);
                let recorded = pruned_window(old(self).window_of(key), window_secs, now).push(now);
                &&& final(self).windows_view() == old(self).windows_view().insert(key, recorded)
                &&& (r is Allowed <==> recorded.len() <= limit)
                &&& (r matches RateDecision::Allowed(info) ==> info.limit == limit
                    && info.remaining == limit - recorded.len()
                    && info.reset == now + window_secs)
                &&& (r matches RateDecision::Rejected(info) ==> info.limit == limit
                    && info.remaining == 0
                    && info.reset == now + window_secs)
            }),
    {
        let key = rate_key(client_id, path);
        let stored = match window_map_get(&self.windows, key.as_str()) {
            Some(v) => v,
            None => Vec::new(),
        };
        let mut recorded = prune_vec(&stored, window_secs, now);
        let count = recorded.len();
        recorded.push(now);
        window_map_set(&mut self.windows, key.as_str(), recorded);
        let reset = now + window_secs;
        if count >= limit as usize {
            RateDecision::Rejected(RateLimitInfo { limit, remaining: 0, reset })
        } else {
            let remaining = limit - count as u32 - 1;
            RateDecision::Allowed(RateLimitInfo { limit, remaining, reset })
        }
    }

    /// Drop every window that holds no instant inside the trailing window,
    /// and prune the ones that remain, so the store cannot grow without
    /// bound under clients that fell silent.
    pub fn sweep(&mut self, window_secs: u64, now: u64)
        ensures
            forall|k: Seq<char>| #[trigger] final(self).windows_view().contains_key(k)
                ==> old(self).windows_view().contains_key(k)
                    && final(self).windows_view()[k]
                        == pruned_window(old(self).windows_view()[k], window_secs, now)
                    && final(self).windows_view()[k].len() > 0,
            forall|k: Seq<char>| old(self).windows_view().contains_key(k)
                && pruned_window(#[trigger] old(self).windows_view()[k], window_secs, now).len() > 0
                ==> final(self).windows_view().contains_key(k),
    {
        let keys = window_map_keys(&self.windows);
        let ghost orig = self.windows_view();
        let mut idx: usize = 0;
        while idx < keys.len()
            invariant
                forall|i: int, j: int| 0 <= i < j < keys@.len() ==> keys@[i]@ != keys@[j]@,
                forall|k: Seq<char>| orig.contains_key(k)
                    <==> exists|i: int| 0 <= i < keys@.len() && #[trigger] keys@[i]@ == k,
                idx <= keys@.len(),
                forall|k: Seq<char>| #[trigger] self.windows_view().contains_key(k) ==> orig.contains_key(k),
                forall|i: int| 0 <= i < idx ==> (
                    #[trigger] self.windows_view().contains_key(keys@[i]@)
                        <==> pruned_window(orig[keys@[i]@], window_secs, now).len() > 0
                ),
                forall|i: int| 0 <= i < idx && self.windows_view().contains_key(#[trigger] keys@[i]@)
                    ==> self.windows_view()[keys@[i]@] == pruned_window(orig[keys@[i]@], window_secs, now),
                forall|i: int| idx <= i < keys@.len() ==> #[trigger] self.windows_view().contains_key(keys@[i]@)
                    && self.windows_view()[keys@[i]@] == orig[keys@[i]@],
            decreases keys@.len() - idx,
        {
            let key = &keys[idx];
            let ghost kk = keys@[idx as int]@;
            proof {
                assert(exists|i: int| 0 <= i < keys@.len() && #[trigger] keys@[i]@ == kk) by {
                    assert(keys@[idx as int]@ == kk);
                }
                assert(orig.contains_key(kk));
                assert(self.windows_view().contains_key(kk));
                assert forall|i: int| 0 <= i < keys@.len() && i != idx implies #[trigger] keys@[i]@ != kk by {
                    if i < idx {
                        assert(keys@[i]@ != keys@[idx as int]@);
                    } else {
                        assert(keys@[idx as int]@ != keys@[i]@);
                    }
                }
            }
            match window_map_get(&self.windows, key.as_str()) {
                Some(v) => {
                    let pruned = prune_vec(&v, window_secs, now);
                    if pruned.len() == 0 {
                        window_map_remove(&mut self.windows, key.as_str());
                    } else {
                        window_map_set(&mut self.windows, key.as_str(), pruned);
                    }
                },
                None => {},
            }
            proof {
                assert forall|i: int| idx + 1 <= i < keys@.len() implies
                    #[trigger] self.windows_view().contains_key(keys@[i]@)
                        && self.windows_view()[keys@[i]@] == orig[keys@[i]@] by {
                    assert(keys@[i]@ != kk);
                }
            }
            idx = idx + 1;
        }
    }
}

/// The degraded-mode outcome when a shared backing store cannot be reached:
/// the request is admitted with a full window, so an infrastructure failure
/// never blocks traffic.
pub fn fail_open_info(limit: u32, window_secs: u64, now: u64) -> (r: RateLimitInfo)
    requires
        now + window_secs <= u64::MAX,
    ensures
        r.limit == limit,
        r.remaining == limit,
        r.reset == now + window_secs,
{
    RateLimitInfo { limit, remaining: limit, reset: now + window_secs }
}

/// The client identity a request is billed to: the authenticated subject
/// first, else the first address of the forwarded-for header, else the
/// real-ip header, else one shared unknown bucket.
pub open spec fn spec_client_id(
    user_id: Option<&str>,
    forwarded_for: Option<&str>,
    real_ip: Option<&str>,
) -> Seq<char> {
    match user_id {
        Some(u) => "user:"@ + u@,
        None => match forwarded_for {
            Some(f) => trimmed(first_segment(f@)),
            None => match real_ip {
                Some(ip) => ip@,
                None => "unknown"@,
            },
        },
    }
}

/// Derive the client identity used to key the rate window.
pub fn get_client_id(
    user_id: Option<&str>,
    forwarded_for: Option<&str>,
    real_ip: Option<&str>,
) -> (r: String)
    ensures
        r@ == spec_client_id(user_id, forwarded_for, real_ip),
{
    match user_id {
        Some(u) => {
            let mut out = String::from_str("user:");
            out.append(u);
            out
        },
        None => match forwarded_for {
            Some(f) => {
                let seg = first_comma_segment(f);
                let t = trim_spaces(seg);
                String::from_str(t)
            },
            None => match real_ip {
                Some(ip) => String::from_str(ip),
                None => String::from_str("unknown"),
            },
        },
    }
}

} // verus!
