//! The in-memory cache backend: a concurrent map whose values carry an
//! optional expiry. Expired entries are dropped lazily when read. It never
//! fails.
//!
//! Time is a count of milliseconds on a monotonic clock that starts when
//! the cache is created.

use vstd::prelude::*;
use crate::text::{decimal_signed, i64_to_decimal, parse_i64, parse_i64_spec};

verus! {

#[verifier::external_type_specification]
#[verifier::external_body]
#[verifier::reject_recursive_types(K)]
#[verifier::reject_recursive_types(V)]
#[verifier::reject_recursive_types(S)]
pub struct ExDashMap<K, V, S>(dashmap::DashMap<K, V, S>);

#[verifier::external_type_specification]
#[verifier::external_body]
pub struct ExInstant(std::time::Instant);

/// One stored value and its expiry (milliseconds since the cache's origin).
pub type StoredValue = (String, Option<u64>);

/// What the map holds: for each key, the value text and its expiry.
pub type CacheView = Map<Seq<char>, (Seq<char>, Option<u64>)>;

/// The empty contents.
pub open spec fn empty_view() -> CacheView {
    Map::empty()
}

/// The contents of a dashmap of cache entries.
pub uninterp spec fn map_contents(m: dashmap::DashMap<String, (String, Option<u64>)>) -> Map<Seq<char>, (Seq<char>, Option<u64>)>;

/// dashmap's `DashMap::new()`. Claimed: the new map is empty.
#[verifier::external_body]
fn map_new() -> (r: dashmap::DashMap<String, (String, Option<u64>)>)
    ensures
        map_contents(r) == empty_view(),
{
    dashmap::DashMap::new()
}

/// dashmap's `get(key)`, cloning the value out. Claimed: the value stored
/// under `key`, or `None` when there is none.
#[verifier::external_body]
fn map_get(m: &dashmap::DashMap<String, (String, Option<u64>)>, key: &str) -> (r: Option<(String, Option<u64>)>)
    ensures
        match r {
            Some(v) => map_contents(*m).contains_key(key@) && map_contents(*m)[key@] == (v.0@, v.1),
            None => !map_contents(*m).contains_key(key@),
        },
{
    m.get(key).map(|e| e.value().clone())
}

/// dashmap's `insert(key, value)`. Claimed: afterwards `key` maps to
/// `value` and every other key is unchanged.
#[verifier::external_body]
fn map_insert(m: &mut dashmap::DashMap<String, (String, Option<u64>)>, key: String, value: (String, Option<u64>))
    ensures
        map_contents(*final(m)) == map_contents(*old(m)).insert(key@, (value.0@, value.1)),
{
    m.insert(key, value);
}

/// dashmap's `remove(key)`. Claimed: afterwards `key` is absent and every
/// other key is unchanged.
#[verifier::external_body]
fn map_remove(m: &mut dashmap::DashMap<String, (String, Option<u64>)>, key: &str)
    ensures
        map_contents(*final(m)) == map_contents(*old(m)).remove(key@),
{
    m.remove(key);
}

/// std's `Instant::now()`. Nothing is claimed: it is the time.
#[verifier::external_body]
fn instant_now() -> std::time::Instant {
    std::time::Instant::now()
}

/// Milliseconds elapsed since `origin` (std's `Instant::elapsed`), clamped
/// to `u64`. Nothing is claimed: it is the time.
#[verifier::external_body]
fn elapsed_ms(origin: &std::time::Instant) -> u64 {
    u64::try_from(origin.elapsed().as_millis()).unwrap_or(u64::MAX)
}

/// Whether an entry has expired at `now`.
pub open spec fn is_expired(e: (Seq<char>, Option<u64>), now: u64) -> bool {
    match e.1 {
        Some(t) => now >= t,
        None => false,
    }
}

/// The live value under `key` at `now`.
pub open spec fn lookup(m: CacheView, key: Seq<char>, now: u64) -> Option<Seq<char>> {
    if m.contains_key(key) && !is_expired(m[key], now) {
        Some(m[key].0)
    } else {
        None
    }
}

/// The map after a read of `key` at `now`: an expired entry is dropped.
pub open spec fn after_read(m: CacheView, key: Seq<char>, now: u64) -> CacheView {
    if m.contains_key(key) && is_expired(m[key], now) {
        m.remove(key)
    } else {
        m
    }
}

/// The expiry of an entry written at `now` with a time-to-live (saturating
/// at the end of the clock).
pub open spec fn expiry_after(now: u64, ttl_ms: Option<u64>) -> Option<u64> {
    match ttl_ms {
        Some(d) => Some(if now + d > u64::MAX { u64::MAX } else { (now + d) as u64 }),
        None => None,
    }
}

/// Whether an increment at `now` starts a new counting window for `key`.
pub open spec fn starts_window(m: CacheView, key: Seq<char>, now: u64) -> bool {
    !m.contains_key(key) || is_expired(m[key], now)
}

/// The number stored as text (0 when it does not parse).
pub open spec fn stored_count(text: Seq<char>) -> i64 {
    match parse_i64_spec(text) {
        Some(v) => v,
        None => 0,
    }
}

/// The counter after adding `delta` at `now`: `delta` in a new window,
/// otherwise the stored count plus `delta` (wrapping as release builds do).
pub open spec fn incr_result(m: CacheView, key: Seq<char>, delta: i64, now: u64) -> i64 {
    if starts_window(m, key, now) {
        delta
    } else {
        vstd::wrapping::i64_specs::wrapping_add(stored_count(m[key].0), delta)
    }
}

/// The map after such an increment: a new window stores `delta` with a
/// fresh expiry; an open window keeps its expiry.
pub open spec fn after_incr(m: CacheView, key: Seq<char>, delta: i64, window_secs: u64, now: u64) -> CacheView {
    let r = incr_result(m, key, delta, now);
    if starts_window(m, key, now) {
        m.insert(key, (decimal_signed(r as int), expiry_after(now, Some(window_ms(window_secs)))))
    } else {
        m.insert(key, (decimal_signed(r as int), m[key].1))
    }
}

/// A window length in milliseconds (saturating).
pub open spec fn window_ms(window_secs: u64) -> u64 {
    if window_secs * 1000 > u64::MAX { u64::MAX } else { (window_secs * 1000) as u64 }
}

fn expiry_at(now: u64, ttl_ms: Option<u64>) -> (r: Option<u64>)
    ensures
        r == expiry_after(now, ttl_ms),
{
    match ttl_ms {
        Some(d) => Some(now.saturating_add(d)),
        None => None,
    }
}

/// The in-memory cache.
pub struct MemoryCache {
    map: dashmap::DashMap<String, (String, Option<u64>)>,
    origin: std::time::Instant,
}

impl MemoryCache {
    /// What the cache holds.
    pub closed spec fn view(&self) -> CacheView {
        map_contents(self.map)
    }

    /// An empty cache whose clock starts now.
    pub fn new() -> (r: Self)
        ensures
            r.view() == empty_view(),
    {
        MemoryCache { map: map_new(), origin: instant_now() }
    }

    /// Milliseconds since the cache was created.
    pub fn now_ms(&self) -> u64 {
        elapsed_ms(&self.origin)
    }

    /// Reads `key` at time `now`, dropping it first if it has expired.
    pub fn get_string_at(&mut self, key: &str, now: u64) -> (r: Option<String>)
        ensures
            r matches Some(v) ==> lookup(old(self).view(), key@, now) == Some(v@),
            r is None ==> lookup(old(self).view(), key@, now) is None,
            final(self).view() == after_read(old(self).view(), key@, now),
    {
        match map_get(&self.map, key) {
            Some(e) => {
                let expired = match e.1 {
                    Some(t) => now >= t,
                    None => false,
                };
                if expired {
                    map_remove(&mut self.map, key);
                    None
                } else {
                    Some(e.0)
                }
            },
            None => None,
        }
    }

    /// Writes `value` under `key` at time `now`, expiring `ttl_ms`
    /// milliseconds later (never, without a TTL).
    pub fn set_string_at(&mut self, key: &str, value: &str, ttl_ms: Option<u64>, now: u64)
        ensures
            final(self).view() == old(self).view().insert(key@, (value@, expiry_after(now, ttl_ms))),
    {
        let expires_at = expiry_at(now, ttl_ms);
        map_insert(&mut self.map, String::from_str(key), (String::from_str(value), expires_at));
    }

    /// Deletes `key`.
    pub fn del(&mut self, key: &str)
        ensures
            final(self).view() == old(self).view().remove(key@),
    {
        map_remove(&mut self.map, key);
    }

    /// Adds `delta` to the counter under `key` at time `now`. A missing or
    /// expired counter starts a new window of `window_secs` seconds that
    /// counts from `delta`; otherwise the stored count grows by `delta` and
    /// the window keeps its expiry. Returns the new count.
    pub fn incr_with_expire_at(&mut self, key: &str, delta: i64, window_secs: u64, now: u64) -> (r: i64)
        ensures
            r == incr_result(old(self).view(), key@, delta, now),
            final(self).view() == after_incr(old(self).view(), key@, delta, window_secs, now),
    {
        let window: u64 = match window_secs.checked_mul(1000) {
            Some(w) => w,
            None => u64::MAX,
        };
        match map_get(&self.map, key) {
            Some(e) => {
                let expired = match e.1 {
                    Some(t) => now >= t,
                    None => false,
                };
                if expired {
                    map_insert(&mut self.map, String::from_str(key), (i64_to_decimal(delta), expiry_at(now, Some(window))));
                    delta
                } else {
                    let current = match parse_i64(e.0.as_str()) {
                        Some(v) => v,
                        None => 0,
                    };
                    let new_val = current.wrapping_add(delta);
                    map_insert(&mut self.map, String::from_str(key), (i64_to_decimal(new_val), e.1));
                    new_val
                }
            },
            None => {
                map_insert(&mut self.map, String::from_str(key), (i64_to_decimal(delta), expiry_at(now, Some(window))));
                delta
            },
        }
    }

    /// Reads `key` now.
    pub fn get_string(&mut self, key: &str) -> (r: Option<String>)
        ensures
            exists|now: u64| #![trigger after_read(old(self).view(), key@, now)] {
                &&& (r matches Some(v) ==> lookup(old(self).view(), key@, now) == Some(v@))
                &&& (r is None ==> lookup(old(self).view(), key@, now) is None)
                &&& final(self).view() == after_read(old(self).view(), key@, now)
            },
    {
        let now = self.now_ms();
        self.get_string_at(key, now)
    }

    /// Writes `value` under `key` now.
    pub fn set_string(&mut self, key: &str, value: &str, ttl_ms: Option<u64>)
        ensures
            exists|now: u64| final(self).view() == old(self).view().insert(key@, (value@, expiry_after(now, ttl_ms))),
    {
        let now = self.now_ms();
        self.set_string_at(key, value, ttl_ms, now)
    }

    /// Adds `delta` to the counter under `key` now.
    pub fn incr_with_expire(&mut self, key: &str, delta: i64, window_secs: u64) -> (r: i64)
        ensures
            exists|now: u64| #![trigger after_incr(old(self).view(), key@, delta, window_secs, now)] {
                &&& r == incr_result(old(self).view(), key@, delta, now)
                &&& final(self).view() == after_incr(old(self).view(), key@, delta, window_secs, now)
            },
    {
        let now = self.now_ms();
        self.incr_with_expire_at(key, delta, window_secs, now)
    }
}

/// A value written without a TTL is read back at any later time; one
/// written with a TTL is read back until it expires and not after.
pub proof fn lemma_read_after_write(m: CacheView, key: Seq<char>, value: Seq<char>, ttl_ms: Option<u64>, now: u64, later: u64)
    requires
        now <= later,
    ensures
        ttl_ms is None ==> lookup(m.insert(key, (value, expiry_after(now, ttl_ms))), key, later) == Some(value),
        ttl_ms matches Some(d) ==> (lookup(m.insert(key, (value, expiry_after(now, ttl_ms))), key, later) == Some(value)
            <==> later < expiry_after(now, ttl_ms)->0),
{
}

/// A new cache reads every key as absent, and reading it changes nothing.
pub proof fn lemma_new_cache_empty(key: Seq<char>, now: u64)
    ensures
        lookup(empty_view(), key, now) is None,
        after_read(empty_view(), key, now) == empty_view(),
{
}

/// A deleted key reads as absent.
pub proof fn lemma_read_after_delete(m: CacheView, key: Seq<char>, now: u64)
    ensures
        lookup(m.remove(key), key, now) is None,
{
}

/// Writing or deleting one key leaves every other key's reads unchanged.
pub proof fn lemma_other_keys_unaffected(m: CacheView, key: Seq<char>, other: Seq<char>, value: Seq<char>, e: Option<u64>, now: u64)
    requires
        key != other,
    ensures
        lookup(m.insert(key, (value, e)), other, now) == lookup(m, other, now),
        lookup(m.remove(key), other, now) == lookup(m, other, now),
{
}

/// Counting in one window: the first increment gives `delta`, and each
/// further increment before the window expires adds its delta to the
/// stored count; the stored text reads back as the count.
pub proof fn lemma_incr_counts(m: CacheView, key: Seq<char>, delta: i64, window_secs: u64, now: u64, later: u64)
    requires
        starts_window(m, key, now),
        now <= later,
        later < expiry_after(now, Some(window_ms(window_secs)))->0,
    ensures
        incr_result(m, key, delta, now) == delta,
        ({
            let m1 = after_incr(m, key, delta, window_secs, now);
            &&& !starts_window(m1, key, later)
            &&& stored_count(m1[key].0) == delta
            &&& incr_result(m1, key, delta, later) == vstd::wrapping::i64_specs::wrapping_add(delta, delta)
        }),
{
    crate::text::lemma_parse_decimal_roundtrip(delta);
}

/// Once a window has expired, the next increment starts over from its delta.
pub proof fn lemma_incr_window_resets(m: CacheView, key: Seq<char>, delta: i64, now: u64)
    requires
        m.contains_key(key),
        is_expired(m[key], now),
    ensures
        incr_result(m, key, delta, now) == delta,
{
}

} // verus!
