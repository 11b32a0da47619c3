//! The decisions of the HTTP layer: errors and their responses,
//! authentication of both APIs, scope gates, rate-limit keys, and the
//! per-handler rules of the chat and admin endpoints. The requests, the
//! database and the upstream calls are the caller's; these functions take
//! what was read and say what to answer or do next.

pub mod error;
pub mod auth_admin;
pub mod auth_chat;
pub mod ratelimit;
pub mod chat;
pub mod admin;

pub use error::ApiError;
pub use crate::agent::tun::TunStatus;
