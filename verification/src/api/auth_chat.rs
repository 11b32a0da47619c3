//! Chat-side authentication: the bearer credential is an API token, looked
//! up by its keyed hash (cache first, then the store); a valid token becomes
//! an API-user principal of its account.

use vstd::prelude::*;
use crate::api::error::{ApiError, unauthorized};
use crate::cache::token_cache::TokenInfo;
use crate::api::auth_admin::scope_granted;
use crate::domain::principal::{Principal, PrincipalKind, Scope};
use crate::domain::token::{ApiToken, TokenStatus};
use crate::text::{str_eq, trim, trim_spec};

verus! {

/// An authenticated API user.
pub struct RequireApiUser(pub Principal);

/// The token carried by an `Authorization` header value: the rest after
/// `Bearer ` (or `bearer `), trimmed.
pub open spec fn bearer_token(header: Seq<char>) -> Option<Seq<char>> {
    if header.len() >= 7 && header.take(7) == "Bearer "@ {
        Some(trim_spec(header.skip(7)))
    } else if header.len() >= 7 && header.take(7) == "bearer "@ {
        Some(trim_spec(header.skip(7)))
    } else {
        None
    }
}

fn strip_scheme(header: &str, scheme: &str) -> (r: Option<String>)
    requires
        scheme@.len() == 7,
    ensures
        header@.len() >= 7 && header@.take(7) == scheme@ ==> (r matches Some(t) && t@ == header@.skip(7)),
        !(header@.len() >= 7 && header@.take(7) == scheme@) ==> r is None,
{
    let n = header.unicode_len();
    if n < 7 {
        return None;
    }
    let head = header.substring_char(0, 7);
    if str_eq(head, scheme) {
        let rest = header.substring_char(7, n);
        proof {
            assert(head@ =~= header@.take(7));
            assert(rest@ =~= header@.skip(7));
        }
        Some(String::from_str(rest))
    } else {
        proof {
            assert(head@ =~= header@.take(7));
        }
        None
    }
}

/// The bearer token of the `Authorization` header (`None` when the header
/// is missing or is not visible ASCII): a missing header and another scheme
/// are refused.
pub fn extract_bearer(header: Option<&str>) -> (r: Result<String, ApiError>)
    ensures
        match header {
            None => r matches Err(ApiError::Unauthorized(m)) && m@ == "missing authorization header"@,
            Some(h) => match bearer_token(h@) {
                Some(t) => r matches Ok(s) && s@ == t,
                None => r matches Err(ApiError::Unauthorized(m)) && m@ == "invalid authorization scheme"@,
            },
        },
{
    match header {
        None => Err(unauthorized("missing authorization header")),
        Some(h) => {
            proof {
                reveal_strlit("Bearer ");
                reveal_strlit("bearer ");
            }
            match strip_scheme(h, "Bearer ") {
                Some(rest) => Ok(trim(rest.as_str())),
                None => match strip_scheme(h, "bearer ") {
                    Some(rest) => Ok(trim(rest.as_str())),
                    None => Err(unauthorized("invalid authorization scheme")),
                },
            }
        },
    }
}

/// The principal of an API user of `account_id`: the account is both its id
/// and its account, and it holds no admin scope.
pub open spec fn api_user_of(p: Principal, account_id: Seq<char>) -> bool {
    &&& p.kind == PrincipalKind::ApiUser
    &&& p.id@ == account_id
    &&& p.account_id matches Some(a) && a@ == account_id
    &&& p.scopes@.len() == 0
}

fn api_user(account_id: &String) -> (r: Principal)
    ensures
        api_user_of(r, account_id@),
{
    Principal {
        kind: PrincipalKind::ApiUser,
        id: account_id.clone(),
        account_id: Some(account_id.clone()),
        scopes: Vec::new(),
    }
}

/// The principal of a token found in the cache: a cached token that is not
/// active is revoked.
pub fn principal_from_cached(info: &TokenInfo) -> (r: Result<Principal, ApiError>)
    ensures
        info.status@ == "active"@ ==> (r matches Ok(p) && api_user_of(p, info.account_id@)),
        info.status@ != "active"@ ==> (r matches Err(ApiError::Unauthorized(m)) && m@ == "token revoked"@),
{
    if !str_eq(info.status.as_str(), "active") {
        return Err(unauthorized("token revoked"));
    }
    Ok(api_user(&info.account_id))
}

/// The principal of a token found (or not) in the store at `now_ms` (Unix
/// milliseconds): unknown, revoked and expired tokens are refused, in that
/// order; a token without expiry never expires.
pub fn principal_from_token(found: Option<ApiToken>, now_ms: i64) -> (r: Result<Principal, ApiError>)
    ensures
        match found {
            None => r matches Err(ApiError::Unauthorized(m)) && m@ == "invalid token"@,
            Some(t) => if t.status != TokenStatus::Active {
                r matches Err(ApiError::Unauthorized(m)) && m@ == "token revoked"@
            } else if t.expires_at matches Some(exp) && exp < now_ms {
                r matches Err(ApiError::Unauthorized(m)) && m@ == "token expired"@
            } else {
                r matches Ok(p) && api_user_of(p, t.account_id@)
            },
        },
{
    match found {
        None => Err(unauthorized("invalid token")),
        Some(t) => {
            if t.status != TokenStatus::Active {
                return Err(unauthorized("token revoked"));
            }
            match t.expires_at {
                Some(exp) => {
                    if exp < now_ms {
                        return Err(unauthorized("token expired"));
                    }
                },
                None => {},
            }
            Ok(api_user(&t.account_id))
        },
    }
}

/// An API user holds no scope and is no administrator, so no scope gate of
/// the admin API admits it.
pub proof fn lemma_api_user_has_no_admin_access(p: Principal, account_id: Seq<char>, scope: Scope)
    requires
        api_user_of(p, account_id),
    ensures
        !scope_granted(p, scope),
{
}

/// The cache entry written back after a store lookup succeeded: the account,
/// no model restriction, status `active`.
pub fn cache_entry_for(account_id: &str) -> (r: TokenInfo)
    ensures
        r.account_id@ == account_id@,
        r.allowed_models@.len() == 0,
        r.status@ == "active"@,
{
    TokenInfo {
        account_id: String::from_str(account_id),
        allowed_models: Vec::new(),
        status: String::from_str("active"),
    }
}

} // verus!
