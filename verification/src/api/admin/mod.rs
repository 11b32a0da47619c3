//! The admin API: request bodies and parameters, and the rules of each
//! endpoint (identifiers, issued secrets, derived values, refusals).
//! Every endpoint first passes the scope gate of `auth_admin`.

pub mod accounts;
pub mod auth;
pub mod credits;
pub mod devices;
pub mod models;
pub mod policies;
pub mod providers;
pub mod reports;
pub mod services;
pub mod tokens;
pub mod tun;

use vstd::prelude::*;
use crate::api::error::ApiError;
use crate::audit::sink::AuditRecord;
use crate::text::append_str;

verus! {

/// Whether a text has the shape of a hyphenated UUID: 36 characters with
/// hyphens at 8, 13, 18 and 23.
pub open spec fn uuid_shaped(u: Seq<char>) -> bool {
    &&& u.len() == 36
    &&& u[8] == '-' && u[13] == '-' && u[18] == '-' && u[23] == '-'
}

/// uuid's `Uuid::new_v4().to_string()`: a random (version 4) UUID in its
/// hyphenated lower-case form. Claimed: the hyphenated shape, which uuid's
/// formatter always writes; the digits are random and left open.
#[verifier::external_body]
fn new_uuid_v4() -> (r: String)
    ensures
        uuid_shaped(r@),
{
    uuid::Uuid::new_v4().to_string()
}

/// A new identifier: `prefix` followed by a random UUID.
pub fn prefixed_id(prefix: &str) -> (r: String)
    ensures
        exists|u: Seq<char>| uuid_shaped(u) && r@ == prefix@ + u,
{
    let u = new_uuid_v4();
    let mut id = String::new();
    append_str(&mut id, prefix);
    append_str(&mut id, u.as_str());
    assert(id@ =~= prefix@ + u@);
    id
}

/// A looked-up row, or `NotFound`.
pub fn found_or_not_found<T>(found: Option<T>) -> (r: Result<T, ApiError>)
    ensures
        match found {
            Some(v) => r == Ok::<T, ApiError>(v),
            None => r == Err::<T, ApiError>(ApiError::NotFound),
        },
{
    match found {
        Some(v) => Ok(v),
        None => Err(ApiError::NotFound),
    }
}

/// Whether an update, delete or status change touched a row: `NotFound`
/// when it touched none.
pub fn changed_or_not_found(changed: bool) -> (r: Result<(), ApiError>)
    ensures
        changed ==> r is Ok,
        !changed ==> r == Err::<(), ApiError>(ApiError::NotFound),
{
    if changed {
        Ok(())
    } else {
        Err(ApiError::NotFound)
    }
}

fn opt_string(s: Option<&str>) -> (r: Option<String>)
    ensures
        match s {
            Some(t) => r matches Some(v) && v@ == t@,
            None => r is None,
        },
{
    match s {
        Some(t) => Some(String::from_str(t)),
        None => None,
    }
}

/// The audit record of an admin operation at `now`: actor kind `admin`,
/// the admin's id, the action, its target and details, no address.
pub fn admin_audit(
    admin_id: &str,
    action: &str,
    target_kind: Option<&str>,
    target_id: Option<&str>,
    detail: Option<String>,
    now: i64,
) -> (r: AuditRecord)
    ensures
        r.actor_kind@ == "admin"@,
        r.actor_id matches Some(a) && a@ == admin_id@,
        r.action@ == action@,
        match target_kind { Some(k) => r.target_kind matches Some(v) && v@ == k@, None => r.target_kind is None },
        match target_id { Some(k) => r.target_id matches Some(v) && v@ == k@, None => r.target_id is None },
        r.detail == detail,
        r.ip is None,
        r.created_at == now,
{
    AuditRecord {
        actor_kind: String::from_str("admin"),
        actor_id: Some(String::from_str(admin_id)),
        action: String::from_str(action),
        target_kind: opt_string(target_kind),
        target_id: opt_string(target_id),
        detail,
        ip: None,
        created_at: now,
    }
}

} // verus!
