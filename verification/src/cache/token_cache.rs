//! The API-token cache (the authentication hot path): `token:<keyed hash>`
//! holds the token's serialized info for 10 minutes; revocation deletes it.

use vstd::prelude::*;
use crate::cache::connection::CacheStore;
use crate::cache::memory::{CacheView, lookup, after_read, expiry_after};
use crate::text::append_str;

verus! {

/// Time-to-live of a cached token, in milliseconds.
pub const TOKEN_TTL_MS: u64 = 600_000;

/// What is cached of a token.
#[derive(Debug, Clone)]
pub struct TokenInfo {
    pub account_id: String,
    /// Allowed logical models (empty: all, subject to the policy).
    pub allowed_models: Vec<String>,
    pub status: String,
}

/// The cache key of a token hash.
pub open spec fn token_key(token_hash: Seq<char>) -> Seq<char> {
    "token:"@ + token_hash
}

/// The cache key of a token hash, as text.
pub fn token_cache_key(token_hash: &str) -> (r: String)
    ensures
        r@ == token_key(token_hash@),
{
    let mut k = String::new();
    append_str(&mut k, "token:");
    assert(k@ =~= "token:"@);
    append_str(&mut k, token_hash);
    k
}

/// Caches token infos, stored as their serialized (JSON) text.
pub struct TokenCache {
    store: CacheStore,
}

impl TokenCache {
    /// What the underlying store holds.
    pub closed spec fn view(&self) -> CacheView {
        self.store.view()
    }

    /// A token cache over `store`.
    pub fn new(store: CacheStore) -> (r: Self)
        ensures
            r.view() == store.view(),
    {
        TokenCache { store }
    }

    /// The serialized info of a token hash (`None` on a miss).
    pub fn get_serialized(&mut self, token_hash: &str) -> (r: Option<String>)
        ensures
            exists|now: u64| #![trigger after_read(old(self).view(), token_key(token_hash@), now)] {
                &&& (r matches Some(v) ==> lookup(old(self).view(), token_key(token_hash@), now) == Some(v@))
                &&& (r is None ==> lookup(old(self).view(), token_key(token_hash@), now) is None)
                &&& final(self).view() == after_read(old(self).view(), token_key(token_hash@), now)
            },
    {
        let key = token_cache_key(token_hash);
        let got = self.store.get_string(key.as_str());
        proof {
            let w = choose|now: u64| {
                &&& (got matches Some(v) ==> lookup(old(self).store.view(), key@, now) == Some(v@))
                &&& (got is None ==> lookup(old(self).store.view(), key@, now) is None)
                &&& self.store.view() == after_read(old(self).store.view(), key@, now)
            };
            assert(final(self).view() == after_read(old(self).view(), token_key(token_hash@), w));
        }
        got
    }

    /// Stores the serialized info of a token hash for 10 minutes.
    pub fn set_serialized(&mut self, token_hash: &str, info_json: &str)
        ensures
            exists|now: u64| final(self).view() == old(self).view().insert(
                token_key(token_hash@),
                (info_json@, expiry_after(now, Some(TOKEN_TTL_MS))),
            ),
    {
        let key = token_cache_key(token_hash);
        self.store.set_string(key.as_str(), info_json, Some(TOKEN_TTL_MS))
    }

    /// Revokes: deletes the cached entry at once.
    pub fn revoke(&mut self, token_hash: &str)
        ensures
            final(self).view() == old(self).view().remove(token_key(token_hash@)),
    {
        let key = token_cache_key(token_hash);
        self.store.del(key.as_str())
    }
}

/// A cached token reads back until its 10 minutes expire, and a revoked
/// token misses at once.
pub proof fn lemma_token_cache_reads(m: CacheView, token_hash: Seq<char>, info: Seq<char>, now: u64, later: u64)
    requires
        now <= later,
        later < expiry_after(now, Some(TOKEN_TTL_MS))->0,
    ensures
        lookup(m.insert(token_key(token_hash), (info, expiry_after(now, Some(TOKEN_TTL_MS)))), token_key(token_hash), later)
            == Some(info),
        lookup(m.remove(token_key(token_hash)), token_key(token_hash), later) is None,
{
    crate::cache::memory::lemma_read_after_write(m, token_key(token_hash), info, Some(TOKEN_TTL_MS), now, later);
    crate::cache::memory::lemma_read_after_delete(m, token_key(token_hash), later);
}

} // verus!
