//! Admin authentication endpoints: login (password and TOTP), refresh,
//! logout, the current admin, and the client-credentials exchange of
//! services for a JWT.

use vstd::prelude::*;
use crate::api::auth_admin::AdminUser;
use crate::api::error::{ApiError, bad_request, unauthorized};
use crate::auth::password::{password_matches, verify_password};
use crate::auth::secret::ServerSecret;
use crate::auth::session::{generate_session_token, hash_session_token, keyed_hash};
use crate::auth::token_hmac::hash_api_token;
use crate::auth::totp::{code_in_window, totp_secret_bytes, verify_totp_at, TOTP_MAX_TIME, TOTP_STEP};
use crate::text::{join_strings, join_with, str_eq, string_views};

verus! {

/// Lifetime of an access token, in seconds (one hour).
pub const ACCESS_TOKEN_TTL_SECS: i64 = 3600;
/// Lifetime of a refresh token, in seconds (seven days).
pub const REFRESH_TOKEN_TTL_SECS: i64 = 604800;
/// Lifetime of a service JWT, in seconds (one hour).
pub const SERVICE_JWT_TTL_SECS: i64 = 3600;

/// Body of a login.
#[derive(Debug, Clone)]
pub struct LoginRequest {
    pub phone: String,
    pub password: String,
    pub totp_code: String,
}

/// The tokens answered by a login or a refresh.
#[derive(Debug, Clone)]
pub struct TokenResponse {
    pub access_token: String,
    pub refresh_token: String,
    pub expires_in: i64,
    pub token_type: String,
}

/// Body of a refresh.
#[derive(Debug, Clone)]
pub struct RefreshRequest {
    pub refresh_token: String,
}

/// Body of the client-credentials exchange.
#[derive(Debug, Clone)]
pub struct ClientCredentialsForm {
    pub grant_type: String,
    pub client_id: String,
    pub client_secret: String,
}

/// Whether a TOTP code is accepted for a secret at `now` (Unix seconds):
/// the secret decodes and the code is that of the current step or of one
/// step before or after (no window exists in the first step of the epoch,
/// nor past `TOTP_MAX_TIME`).
pub open spec fn totp_accepts(secret: Seq<char>, code: Seq<char>, now: u64) -> bool {
    &&& TOTP_STEP <= now <= TOTP_MAX_TIME
    &&& totp_secret_bytes(secret) matches Some(key) && code_in_window(key, code, now)
}

/// The verdict of a login at `now`: an unknown phone and a wrong password
/// are both "invalid credentials", a non-active admin is refused, then the
/// TOTP code must be accepted.
pub fn login_verdict(found: Option<AdminUser>, password: &str, totp_code: &str, now: u64) -> (r: Result<AdminUser, ApiError>)
    ensures
        match found {
            None => r matches Err(ApiError::Unauthorized(m)) && m@ == "invalid credentials"@,
            Some(a) => if a.status@ != "active"@ {
                r matches Err(ApiError::Unauthorized(m)) && m@ == "admin disabled"@
            } else if !password_matches(password@, a.password_hash@) {
                r matches Err(ApiError::Unauthorized(m)) && m@ == "invalid credentials"@
            } else if !totp_accepts(a.totp_secret@, totp_code@, now) {
                r matches Err(ApiError::Unauthorized(m)) && m@ == "invalid totp code"@
            } else {
                r == Ok::<AdminUser, ApiError>(a)
            },
        },
{
    match found {
        None => Err(unauthorized("invalid credentials")),
        Some(a) => {
            if !str_eq(a.status.as_str(), "active") {
                return Err(unauthorized("admin disabled"));
            }
            if verify_password(password, a.password_hash.as_str()).is_err() {
                return Err(unauthorized("invalid credentials"));
            }
            if now < TOTP_STEP {
                return Err(unauthorized("invalid totp code"));
            }
            if verify_totp_at(a.totp_secret.as_str(), totp_code, now).is_err() {
                return Err(unauthorized("invalid totp code"));
            }
            Ok(a)
        },
    }
}

/// A login checked against the current time.
pub fn login_check(found: Option<AdminUser>, password: &str, totp_code: &str) -> (r: Result<AdminUser, ApiError>)
    ensures
        match found {
            None => r matches Err(ApiError::Unauthorized(m)) && m@ == "invalid credentials"@,
            Some(a) => if a.status@ != "active"@ {
                r matches Err(ApiError::Unauthorized(m)) && m@ == "admin disabled"@
            } else if !password_matches(password@, a.password_hash@) {
                r matches Err(ApiError::Unauthorized(m)) && m@ == "invalid credentials"@
            } else {
                &&& (r is Ok ==> r == Ok::<AdminUser, ApiError>(a) && exists|now: u64| #[trigger] totp_accepts(a.totp_secret@, totp_code@, now))
                &&& (r is Err ==> (r matches Err(ApiError::Unauthorized(m)) && m@ == "invalid totp code"@))
            },
        },
{
    let now = crate::clock::unix_now_secs();
    let now: u64 = if now < 0 { 0 } else { now as u64 };
    login_verdict(found, password, totp_code, now)
}

/// A stored refresh token, as found by its keyed hash.
#[derive(Debug, Clone)]
pub struct RefreshRecord {
    pub admin_id: String,
    /// The keyed hash of the access token issued with it.
    pub access_hash: String,
    /// Expiry (Unix seconds).
    pub expires_at: i64,
    pub revoked: bool,
}

/// The verdict on a refresh token at `now`: unknown tokens, and revoked or
/// expired ones, are refused.
pub fn refresh_verdict(found: Option<RefreshRecord>, now: i64) -> (r: Result<RefreshRecord, ApiError>)
    ensures
        match found {
            None => r matches Err(ApiError::Unauthorized(m)) && m@ == "invalid refresh token"@,
            Some(t) => if t.revoked || t.expires_at < now {
                r matches Err(ApiError::Unauthorized(m)) && m@ == "refresh token expired or revoked"@
            } else {
                r == Ok::<RefreshRecord, ApiError>(t)
            },
        },
{
    match found {
        None => Err(unauthorized("invalid refresh token")),
        Some(t) => {
            if t.revoked || t.expires_at < now {
                Err(unauthorized("refresh token expired or revoked"))
            } else {
                Ok(t)
            }
        },
    }
}

/// A freshly issued access and refresh token pair: the plaintexts (given
/// once to the client), their keyed hashes (stored) and their expiries.
#[derive(Debug, Clone)]
pub struct SessionPair {
    pub access_plain: String,
    pub access_hash: String,
    pub access_expires_at: i64,
    pub refresh_plain: String,
    pub refresh_hash: String,
    pub refresh_expires_at: i64,
}

/// Issues a token pair at `now`: the access token lives an hour, the
/// refresh token seven days; each is stored under its keyed hash.
pub fn issue_session_pair(secret: &ServerSecret, now: i64) -> (r: SessionPair)
    requires
        now + REFRESH_TOKEN_TTL_SECS <= i64::MAX,
    ensures
        r.access_plain@.len() == 64,
        r.refresh_plain@.len() == 64,
        r.access_hash@ == keyed_hash(r.access_plain@, secret.0@),
        r.refresh_hash@ == keyed_hash(r.refresh_plain@, secret.0@),
        r.access_expires_at == now + ACCESS_TOKEN_TTL_SECS,
        r.refresh_expires_at == now + REFRESH_TOKEN_TTL_SECS,
{
    let access_plain = generate_session_token();
    let access_hash = hash_session_token(access_plain.as_str(), secret);
    let refresh_plain = generate_session_token();
    let refresh_hash = hash_session_token(refresh_plain.as_str(), secret);
    SessionPair {
        access_plain,
        access_hash,
        access_expires_at: now + ACCESS_TOKEN_TTL_SECS,
        refresh_plain,
        refresh_hash,
        refresh_expires_at: now + REFRESH_TOKEN_TTL_SECS,
    }
}

/// The answer to a login or refresh: both plaintexts, the access lifetime,
/// and the `Bearer` type.
pub fn token_response(pair: SessionPair) -> (r: TokenResponse)
    ensures
        r.access_token@ == pair.access_plain@,
        r.refresh_token@ == pair.refresh_plain@,
        r.expires_in == ACCESS_TOKEN_TTL_SECS,
        r.token_type@ == "Bearer"@,
{
    TokenResponse {
        access_token: pair.access_plain,
        refresh_token: pair.refresh_plain,
        expires_in: ACCESS_TOKEN_TTL_SECS,
        token_type: String::from_str("Bearer"),
    }
}

/// Only the client-credentials grant is offered.
pub fn check_grant_type(grant_type: &str) -> (r: Result<(), ApiError>)
    ensures
        grant_type@ == "client_credentials"@ ==> r is Ok,
        grant_type@ != "client_credentials"@ ==> (r matches Err(ApiError::BadRequest(m)) && m@ == "unsupported grant_type"@),
{
    if str_eq(grant_type, "client_credentials") {
        Ok(())
    } else {
        Err(bad_request("unsupported grant_type"))
    }
}

/// A service account's credentials, as found by its client id.
#[derive(Debug, Clone)]
pub struct ServiceAuth {
    pub id: String,
    /// The keyed hash of the client secret.
    pub secret_hash: String,
    pub scopes: Vec<String>,
    pub status: String,
}

/// The verdict on presented client credentials: an unknown client and a
/// secret whose keyed hash differs from the stored one are both "invalid
/// client credentials"; a non-active service is refused.
pub fn service_credentials_verdict(found: Option<ServiceAuth>, client_secret: &str, secret: &ServerSecret) -> (r: Result<ServiceAuth, ApiError>)
    ensures
        match found {
            None => r matches Err(ApiError::Unauthorized(m)) && m@ == "invalid client credentials"@,
            Some(s) => if s.status@ != "active"@ {
                r matches Err(ApiError::Unauthorized(m)) && m@ == "service disabled"@
            } else if keyed_hash(client_secret@, secret.0@) != s.secret_hash@ {
                r matches Err(ApiError::Unauthorized(m)) && m@ == "invalid client credentials"@
            } else {
                r == Ok::<ServiceAuth, ApiError>(s)
            },
        },
{
    match found {
        None => Err(unauthorized("invalid client credentials")),
        Some(s) => {
            if !str_eq(s.status.as_str(), "active") {
                return Err(unauthorized("service disabled"));
            }
            let provided = hash_api_token(client_secret, secret);
            if !str_eq(provided.as_str(), s.secret_hash.as_str()) {
                return Err(unauthorized("invalid client credentials"));
            }
            Ok(s)
        },
    }
}

/// The `scope` field of a service token answer: the scopes separated by
/// spaces.
pub fn scope_string(scopes: &Vec<String>) -> (r: String)
    ensures
        r@ == join_with(string_views(scopes@), " "@),
{
    join_strings(scopes, " ")
}

} // verus!
