//! API tokens (the static bearer credentials of application users).

use vstd::prelude::*;
use crate::text::take_chars;

verus! {

/// Lifecycle state of an API token.
#[derive(Debug, Clone, Copy, PartialEq, Eq, Structural)]
pub enum TokenStatus {
    Active,
    Revoked,
}

impl Default for TokenStatus {
    fn default() -> (r: Self)
        ensures
            r == TokenStatus::Active,
    {
        TokenStatus::Active
    }
}

/// A stored API token (only its keyed hash is kept).
#[derive(Debug, Clone)]
pub struct ApiToken {
    pub id: String,
    /// HMAC-SHA256 of the token under the server secret, used for lookup.
    pub token_hash: String,
    /// The first 8 characters of the plaintext, shown to identify it.
    pub prefix: String,
    pub account_id: String,
    pub name: Option<String>,
    pub status: TokenStatus,
    pub expires_at: Option<i64>,
    pub created_at: i64,
    pub revoked_at: Option<i64>,
}

/// Literal prefix of every plaintext token.
pub const TOKEN_PREFIX_LITERAL: &'static str = "th_live_";

/// The shown prefix of a plaintext token: its first 8 characters (all of
/// it when it is shorter).
pub fn display_prefix(plaintext: &str) -> (r: String)
    ensures
        r@ == plaintext@.take(if plaintext@.len() < 8 { plaintext@.len() as int } else { 8 }),
{
    take_chars(plaintext, 8)
}

} // verus!
