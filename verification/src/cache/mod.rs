//! Caching: an in-memory store with per-key expiry, and the hot-path caches
//! built on it (token lookups, balances, rate-limit counters). The
//! authoritative data stays in the database; the cache only speeds up hot
//! paths.

pub mod memory;
pub mod connection;
pub mod token_cache;
pub mod balance_cache;
pub mod rate_cache;

pub use memory::MemoryCache;
pub use connection::{memory, from_backend, cache_mode, CacheMode, CacheStore};
pub use token_cache::{TokenInfo, TokenCache};
pub use balance_cache::BalanceCache;
pub use rate_cache::RateLimiter;
