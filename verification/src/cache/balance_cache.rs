//! The balance cache (pre-screening and hot reads): `balance:<account id>`
//! holds the balance as decimal text for 10 seconds. Even a lost update is
//! harmless: settlement is guarded by the optimistic lock.

use vstd::prelude::*;
use crate::cache::connection::CacheStore;
use crate::cache::memory::{CacheView, lookup, after_read, expiry_after};
use crate::text::{append_str, decimal_signed, i64_to_decimal, parse_i64, parse_i64_spec};

verus! {

/// Time-to-live of a cached balance, in milliseconds.
pub const BALANCE_TTL_MS: u64 = 10_000;

/// The cache key of an account's balance.
pub open spec fn balance_key(account_id: Seq<char>) -> Seq<char> {
    "balance:"@ + account_id
}

/// The cache key of an account's balance, as text.
pub fn balance_cache_key(account_id: &str) -> (r: String)
    ensures
        r@ == balance_key(account_id@),
{
    let mut k = String::new();
    append_str(&mut k, "balance:");
    assert(k@ =~= "balance:"@);
    append_str(&mut k, account_id);
    k
}

/// The balance read from cache contents at `now`: the stored text, when live
/// and a valid integer.
pub open spec fn cached_balance(m: CacheView, account_id: Seq<char>, now: u64) -> Option<i64> {
    match lookup(m, balance_key(account_id), now) {
        Some(t) => parse_i64_spec(t),
        None => None,
    }
}

/// Caches balances.
pub struct BalanceCache {
    store: CacheStore,
}

impl BalanceCache {
    /// What the underlying store holds.
    pub closed spec fn view(&self) -> CacheView {
        self.store.view()
    }

    /// A balance cache over `store`.
    pub fn new(store: CacheStore) -> (r: Self)
        ensures
            r.view() == store.view(),
    {
        BalanceCache { store }
    }

    /// The cached balance (`None` on a miss: read the database instead).
    pub fn get(&mut self, account_id: &str) -> (r: Option<i64>)
        ensures
            exists|now: u64| #![trigger after_read(old(self).view(), balance_key(account_id@), now)] {
                &&& r == cached_balance(old(self).view(), account_id@, now)
                &&& final(self).view() == after_read(old(self).view(), balance_key(account_id@), now)
            },
    {
        let key = balance_cache_key(account_id);
        let got = self.store.get_string(key.as_str());
        proof {
            let w = choose|now: u64| {
                &&& (got matches Some(v) ==> lookup(old(self).store.view(), key@, now) == Some(v@))
                &&& (got is None ==> lookup(old(self).store.view(), key@, now) is None)
                &&& self.store.view() == after_read(old(self).store.view(), key@, now)
            };
            assert(final(self).view() == after_read(old(self).view(), balance_key(account_id@), w));
            assert(lookup(old(self).view(), balance_key(account_id@), w) == lookup(old(self).store.view(), key@, w));
        }
        match got {
            Some(s) => parse_i64(s.as_str()),
            None => None,
        }
    }

    /// Writes (or overwrites) a balance, e.g. after settlement.
    pub fn set(&mut self, account_id: &str, balance: i64)
        ensures
            exists|now: u64| final(self).view() == old(self).view().insert(
                balance_key(account_id@),
                (decimal_signed(balance as int), expiry_after(now, Some(BALANCE_TTL_MS))),
            ),
    {
        let key = balance_cache_key(account_id);
        let text = i64_to_decimal(balance);
        self.store.set_string(key.as_str(), text.as_str(), Some(BALANCE_TTL_MS))
    }

    /// Drops a cached balance (after an admin adjustment).
    pub fn invalidate(&mut self, account_id: &str)
        ensures
            final(self).view() == old(self).view().remove(balance_key(account_id@)),
    {
        let key = balance_cache_key(account_id);
        self.store.del(key.as_str())
    }
}

/// A balance written at `now` reads back exactly until its 10 s expire, and
/// an invalidated balance reads as a miss.
pub proof fn lemma_balance_read_after_write(m: CacheView, account_id: Seq<char>, balance: i64, now: u64, later: u64)
    requires
        now <= later,
        later < expiry_after(now, Some(BALANCE_TTL_MS))->0,
    ensures
        cached_balance(
            m.insert(balance_key(account_id), (decimal_signed(balance as int), expiry_after(now, Some(BALANCE_TTL_MS)))),
            account_id,
            later,
        ) == Some(balance),
        cached_balance(m.remove(balance_key(account_id)), account_id, later) is None,
{
    crate::text::lemma_parse_decimal_roundtrip(balance);
}

} // verus!
