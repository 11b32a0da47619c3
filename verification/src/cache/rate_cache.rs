//! Rate limiting: `ratelimit:<key>` counts requests in a window; at most
//! `max_count` are allowed per window.

use vstd::prelude::*;
use crate::cache::connection::CacheStore;
use crate::cache::memory::{CacheView, incr_result, after_incr, starts_window, expiry_after, window_ms, stored_count};
use crate::text::decimal_signed;
use crate::text::append_str;

verus! {

/// The counter key of a rate-limit key.
pub open spec fn rate_key(key: Seq<char>) -> Seq<char> {
    "ratelimit:"@ + key
}

/// The counter key of a rate-limit key, as text.
pub fn rate_cache_key(key: &str) -> (r: String)
    ensures
        r@ == rate_key(key@),
{
    let mut full_key = String::new();
    append_str(&mut full_key, "ratelimit:");
    assert(full_key@ =~= "ratelimit:"@);
    append_str(&mut full_key, key);
    full_key
}

/// Counts requests per key and window.
pub struct RateLimiter {
    store: CacheStore,
}

impl RateLimiter {
    /// What the underlying store holds.
    pub closed spec fn view(&self) -> CacheView {
        self.store.view()
    }

    /// A rate limiter over `store`.
    pub fn new(store: CacheStore) -> (r: Self)
        ensures
            r.view() == store.view(),
    {
        RateLimiter { store }
    }

    /// Counts one request for `key` (e.g. `token:<hash>` or `ip:<addr>`) and
    /// tells whether it is within `max_count` for the current window.
    pub fn check(&mut self, key: &str, max_count: u32, window_secs: u64) -> (r: bool)
        ensures
            exists|now: u64| #![trigger after_incr(old(self).view(), rate_key(key@), 1, window_secs, now)] {
                &&& r == (incr_result(old(self).view(), rate_key(key@), 1, now) <= max_count)
                &&& final(self).view() == after_incr(old(self).view(), rate_key(key@), 1, window_secs, now)
            },
    {
        let now = self.store.now_ms();
        self.check_at(key, max_count, window_secs, now)
    }

    /// `check` at time `now` (milliseconds on the store's clock): one more
    /// request is counted, and it is allowed exactly when the new count is
    /// within `max_count`. A run of these calls follows `count_run`.
    pub fn check_at(&mut self, key: &str, max_count: u32, window_secs: u64, now: u64) -> (r: bool)
        ensures
            r == (incr_result(old(self).view(), rate_key(key@), 1, now) <= max_count),
            final(self).view() == after_incr(old(self).view(), rate_key(key@), 1, window_secs, now),
    {
        let full_key = rate_cache_key(key);
        let count = self.store.incr_with_expire_at(full_key.as_str(), 1, window_secs, now);
        within_limit(count, max_count)
    }
}

/// Whether a request that brought its counter to `count` is within
/// `max_count` (the same verdict for every backing store).
pub fn within_limit(count: i64, max_count: u32) -> (r: bool)
    ensures
        r == (count <= max_count),
{
    count <= max_count as i64
}

/// One more step of a run: counting a request at `t` after the requests
/// at `times` leaves the contents `after_incr` gives and counts it with
/// `incr_result`, both taken on the contents the run left (what
/// `RateLimiter::check_at` does to the limiter's view).
pub proof fn lemma_count_run_step(m: CacheView, key: Seq<char>, window_secs: u64, times: Seq<u64>, t: u64)
    ensures
        count_run(m, key, window_secs, times.push(t)).0
            == after_incr(count_run(m, key, window_secs, times).0, key, 1, window_secs, t),
        count_run(m, key, window_secs, times.push(t)).1
            == count_run(m, key, window_secs, times).1.push(incr_result(count_run(m, key, window_secs, times).0, key, 1, t)),
{
    assert(times.push(t).drop_last() =~= times);
}

/// The contents after counting one request per time of `times` (in order)
/// under `key`, and the count each request received.
pub open spec fn count_run(m: CacheView, key: Seq<char>, window_secs: u64, times: Seq<u64>) -> (CacheView, Seq<i64>)
    decreases times.len(),
{
    if times.len() == 0 {
        (m, Seq::empty())
    } else {
        let prev = count_run(m, key, window_secs, times.drop_last());
        let t = times.last();
        (after_incr(prev.0, key, 1, window_secs, t), prev.1.push(incr_result(prev.0, key, 1, t)))
    }
}

/// The end of the window the first of `times` opens.
pub open spec fn window_end(window_secs: u64, times: Seq<u64>) -> u64 {
    expiry_after(times[0], Some(window_ms(window_secs)))->0
}

proof fn lemma_count_run_prefix(m: CacheView, key: Seq<char>, window_secs: u64, times: Seq<u64>, k: int)
    requires
        1 <= k <= times.len(),
        times.len() < i64::MAX,
        starts_window(m, key, times[0]),
        forall|i: int| 0 <= i < times.len() ==> #[trigger] times[i] < window_end(window_secs, times),
    ensures
        count_run(m, key, window_secs, times.take(k)).0.contains_key(key),
        count_run(m, key, window_secs, times.take(k)).0[key]
            == (decimal_signed(k), Some(window_end(window_secs, times))),
        count_run(m, key, window_secs, times.take(k)).1 =~= Seq::new(k as nat, |i: int| (i + 1) as i64),
    decreases k,
{
    let run = times.take(k);
    let t = times[k - 1];
    assert(run.drop_last() =~= times.take(k - 1));
    assert(run.last() == t);
    let prev = count_run(m, key, window_secs, times.take(k - 1));
    assert(count_run(m, key, window_secs, run)
        == (after_incr(prev.0, key, 1, window_secs, t), prev.1.push(incr_result(prev.0, key, 1, t))));
    if k == 1 {
        assert(times.take(0) =~= Seq::<u64>::empty());
        assert(prev == (m, Seq::<i64>::empty()));
        assert(incr_result(prev.0, key, 1, t) == 1);
        assert(prev.1.push(1) =~= Seq::new(1, |i: int| (i + 1) as i64));
    } else {
        lemma_count_run_prefix(m, key, window_secs, times, k - 1);
        assert(t < window_end(window_secs, times));
        assert(!starts_window(prev.0, key, t));
        crate::text::lemma_parse_decimal_roundtrip((k - 1) as i64);
        assert(stored_count(prev.0[key].0) == k - 1);
        assert(incr_result(prev.0, key, 1, t) == k);
        assert(prev.1.push(k as i64) =~= Seq::new(k as nat, |i: int| (i + 1) as i64));
    }
}

/// A window admits exactly `max_count` requests: from a fresh window opened
/// by the first request, the requests made before that window ends are
/// counted 1, 2, 3, ... in order, so the i-th (from 1) is allowed exactly
/// when i <= `max_count`.
pub proof fn lemma_window_admits_max(m: CacheView, key: Seq<char>, window_secs: u64, times: Seq<u64>, max_count: u32)
    requires
        times.len() > 0,
        times.len() < i64::MAX,
        starts_window(m, key, times[0]),
        forall|i: int| 0 <= i < times.len() ==> #[trigger] times[i] < window_end(window_secs, times),
    ensures
        forall|i: int| 0 <= i < times.len() ==> #[trigger] count_run(m, key, window_secs, times).1[i] == i + 1,
        forall|i: int| 0 <= i < times.len() ==>
            (#[trigger] count_run(m, key, window_secs, times).1[i] <= max_count <==> i + 1 <= max_count),
{
    lemma_count_run_prefix(m, key, window_secs, times, times.len() as int);
    assert(times.take(times.len() as int) =~= times);
}

} // verus!
