//! API tokens: list (hashes masked), issue (the plaintext is given once),
//! revoke.

use vstd::prelude::*;
use crate::api::admin::{prefixed_id, uuid_shaped};
use crate::api::error::{ApiError, bad_request};
use crate::auth::secret::ServerSecret;
use crate::auth::session::keyed_hash;
use crate::auth::token_hmac::{generate_api_token, hash_api_token};
use crate::domain::account::Account;
use crate::domain::token::{ApiToken, TokenStatus, display_prefix};
use crate::encoding::hex_lower;
use crate::text::{append_str, take_chars};

verus! {

/// Parameters of the token list.
#[derive(Debug, Clone)]
pub struct TokensListParams {
    pub account_id: Option<String>,
    pub limit: i64,
    pub offset: i64,
}

/// The page size when none is given.
pub fn default_limit() -> (r: i64)
    ensures
        r == 20,
{
    20
}

/// The offset when none is given.
pub fn default_offset() -> (r: i64)
    ensures
        r == 0,
{
    0
}

/// Body of a token issue.
#[derive(Debug, Clone)]
pub struct CreateTokenReq {
    pub account_id: String,
    pub name: Option<String>,
}

/// A token as listed: its hash masked, its status by name.
#[derive(Debug, Clone)]
pub struct TokenListItem {
    pub id: String,
    pub token_hash: String,
    pub prefix: String,
    pub account_id: String,
    pub name: Option<String>,
    pub status: String,
    pub expires_at: Option<i64>,
    pub created_at: i64,
    pub revoked_at: Option<i64>,
}

/// A masked hash: its first 8 characters and an ellipsis, so a listed
/// hash cannot be matched against tokens.
pub open spec fn mask_hash_spec(hash: Seq<char>) -> Seq<char> {
    hash.take(if hash.len() < 8 { hash.len() as int } else { 8 }) + "…"@
}

/// Masks a token hash.
pub fn mask_hash(hash: &str) -> (r: String)
    ensures
        r@ == mask_hash_spec(hash@),
{
    let mut s = take_chars(hash, 8);
    append_str(&mut s, "…");
    s
}

/// The name of a token status.
pub open spec fn token_status_name(s: TokenStatus) -> Seq<char> {
    match s {
        TokenStatus::Active => "active"@,
        TokenStatus::Revoked => "revoked"@,
    }
}

/// The listed form of a stored token.
pub fn token_list_item(t: ApiToken) -> (r: TokenListItem)
    ensures
        r.id@ == t.id@,
        r.token_hash@ == mask_hash_spec(t.token_hash@),
        r.prefix@ == t.prefix@,
        r.account_id@ == t.account_id@,
        r.name == t.name,
        r.status@ == token_status_name(t.status),
        r.expires_at == t.expires_at,
        r.created_at == t.created_at,
        r.revoked_at == t.revoked_at,
{
    let token_hash = mask_hash(t.token_hash.as_str());
    let status = match t.status {
        TokenStatus::Active => String::from_str("active"),
        TokenStatus::Revoked => String::from_str("revoked"),
    };
    TokenListItem {
        id: t.id,
        token_hash,
        prefix: t.prefix,
        account_id: t.account_id,
        name: t.name,
        status,
        expires_at: t.expires_at,
        created_at: t.created_at,
        revoked_at: t.revoked_at,
    }
}

/// A token is issued for an existing account only.
pub fn token_account(found: Option<Account>) -> (r: Result<Account, ApiError>)
    ensures
        match found {
            Some(a) => r == Ok::<Account, ApiError>(a),
            None => r matches Err(ApiError::BadRequest(m)) && m@ == "account not found"@,
        },
{
    match found {
        Some(a) => Ok(a),
        None => Err(bad_request("account not found")),
    }
}

/// A newly issued token: id, plaintext (given once), keyed hash and shown
/// prefix.
#[derive(Debug, Clone)]
pub struct IssuedToken {
    pub id: String,
    pub plaintext: String,
    pub hash: String,
    pub prefix: String,
}

/// Issues a token: id `tok_<uuid>`, plaintext `th_live_` and 64 hex
/// digits, stored under its keyed hash, shown by its first 8 characters.
pub fn issue_token(secret: &ServerSecret) -> (r: IssuedToken)
    ensures
        exists|u: Seq<char>| uuid_shaped(u) && r.id@ == "tok_"@ + u,
        exists|b: Seq<u8>| b.len() == 32 && r.plaintext@ == "th_live_"@ + hex_lower(b),
        r.hash@ == keyed_hash(r.plaintext@, secret.0@),
        r.prefix@ == r.plaintext@.take(8),
{
    let plaintext = generate_api_token();
    let hash = hash_api_token(plaintext.as_str(), secret);
    let prefix = display_prefix(plaintext.as_str());
    let id = prefixed_id("tok_");
    IssuedToken { id, plaintext, hash, prefix }
}

} // verus!
