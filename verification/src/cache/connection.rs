//! The cache handle and the choice of backend.

use vstd::prelude::*;
use crate::cache::memory::{MemoryCache, CacheView, lookup, after_read, expiry_after, incr_result, after_incr};
use crate::text::{str_eq, trim, trim_spec};

verus! {

/// Which backend to use for a configured Redis URL.
#[derive(Debug, Clone, PartialEq, Eq)]
pub enum CacheMode {
    /// The in-memory cache.
    Memory,
    /// Try Redis at this (trimmed) URL, falling back to memory when it is
    /// unreachable.
    Redis(String),
}

/// The backend for a configured URL: after trimming, an empty URL,
/// "memory", "none" or a bare "redis://" mean the memory cache.
pub open spec fn cache_mode_spec(url: Seq<char>) -> Option<Seq<char>> {
    let t = trim_spec(url);
    if t.len() == 0 || t == "memory"@ || t == "none"@ || t == "redis://"@ {
        None
    } else {
        Some(t)
    }
}

/// Chooses the cache backend for a configured Redis URL.
pub fn cache_mode(redis_url: &str) -> (r: CacheMode)
    ensures
        match cache_mode_spec(redis_url@) {
            None => r == CacheMode::Memory,
            Some(u) => r matches CacheMode::Redis(v) && v@ == u,
        },
{
    let normalized = trim(redis_url);
    let t = normalized.as_str();
    if t.unicode_len() == 0 || str_eq(t, "memory") || str_eq(t, "none") || str_eq(t, "redis://") {
        CacheMode::Memory
    } else {
        CacheMode::Redis(normalized)
    }
}

/// The expiry Redis is given for a time-to-live of `ttl_ms` milliseconds:
/// whole seconds, at least one (`SETEX` takes seconds).
pub fn redis_ttl_secs(ttl_ms: u64) -> (r: u64)
    ensures
        r == (if ttl_ms / 1000 < 1 { 1 } else { ttl_ms / 1000 }),
        r >= 1,
{
    let secs = ttl_ms / 1000;
    if secs < 1 { 1 } else { secs }
}

/// Whether a Redis `INCRBY` by `delta` that returned `count` opened a new
/// window (the counter started from zero), so the window's expiry must be
/// set: the count is the size of the delta, or 1.
pub fn redis_window_starts(count: i64, delta: i64) -> (r: bool)
    requires
        delta != i64::MIN,
    ensures
        r == (count == (if delta < 0 { -delta } else { delta as int }) || count == 1),
{
    let size = if delta < 0 { -delta } else { delta };
    count == size || count == 1
}

/// The cache handle the hot-path caches work through (here backed by the
/// in-memory cache).
pub struct CacheStore {
    backend: MemoryCache,
}

impl CacheStore {
    /// What the store holds.
    pub closed spec fn view(&self) -> CacheView {
        self.backend.view()
    }

    /// Reads a string (`None` on a miss).
    pub fn get_string(&mut self, key: &str) -> (r: Option<String>)
        ensures
            exists|now: u64| #![trigger after_read(old(self).view(), key@, now)] {
                &&& (r matches Some(v) ==> lookup(old(self).view(), key@, now) == Some(v@))
                &&& (r is None ==> lookup(old(self).view(), key@, now) is None)
                &&& final(self).view() == after_read(old(self).view(), key@, now)
            },
    {
        let r = self.backend.get_string(key);
        proof {
            let w = choose|now: u64| {
                &&& (r matches Some(v) ==> lookup(old(self).backend.view(), key@, now) == Some(v@))
                &&& (r is None ==> lookup(old(self).backend.view(), key@, now) is None)
                &&& self.backend.view() == after_read(old(self).backend.view(), key@, now)
            };
            assert(final(self).view() == after_read(old(self).view(), key@, w));
        }
        r
    }

    /// Writes a string with an optional time-to-live in milliseconds.
    pub fn set_string(&mut self, key: &str, value: &str, ttl_ms: Option<u64>)
        ensures
            exists|now: u64| final(self).view() == old(self).view().insert(key@, (value@, expiry_after(now, ttl_ms))),
    {
        self.backend.set_string(key, value, ttl_ms)
    }

    /// Deletes a key.
    pub fn del(&mut self, key: &str)
        ensures
            final(self).view() == old(self).view().remove(key@),
    {
        self.backend.del(key)
    }

    /// Milliseconds on the store's clock.
    pub fn now_ms(&self) -> u64 {
        self.backend.now_ms()
    }

    /// Adds `delta` to the counter under `key` at time `now` (in
    /// milliseconds on the store's clock), opening a window of
    /// `window_secs` on the first increment; returns the new count.
    pub fn incr_with_expire_at(&mut self, key: &str, delta: i64, window_secs: u64, now: u64) -> (r: i64)
        ensures
            r == incr_result(old(self).view(), key@, delta, now),
            final(self).view() == after_incr(old(self).view(), key@, delta, window_secs, now),
    {
        self.backend.incr_with_expire_at(key, delta, window_secs, now)
    }

    /// Atomically adds `delta` and opens a window of `window_secs` on the
    /// first increment; returns the new count.
    pub fn incr_with_expire(&mut self, key: &str, delta: i64, window_secs: u64) -> (r: i64)
        ensures
            exists|now: u64| #![trigger after_incr(old(self).view(), key@, delta, window_secs, now)] {
                &&& r == incr_result(old(self).view(), key@, delta, now)
                &&& final(self).view() == after_incr(old(self).view(), key@, delta, window_secs, now)
            },
    {
        let r = self.backend.incr_with_expire(key, delta, window_secs);
        proof {
            let w = choose|now: u64| {
                &&& r == incr_result(old(self).backend.view(), key@, delta, now)
                &&& self.backend.view() == after_incr(old(self).backend.view(), key@, delta, window_secs, now)
            };
            assert(final(self).view() == after_incr(old(self).view(), key@, delta, window_secs, w));
        }
        r
    }
}

/// A store backed by a new, empty in-memory cache.
pub fn memory() -> (r: CacheStore)
    ensures
        r.view() == crate::cache::memory::empty_view(),
{
    CacheStore { backend: MemoryCache::new() }
}

/// A store backed by the given cache.
pub fn from_backend(backend: MemoryCache) -> (r: CacheStore)
    ensures
        r.view() == backend.view(),
{
    CacheStore { backend }
}

} // verus!
