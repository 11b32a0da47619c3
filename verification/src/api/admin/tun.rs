//! The remote-access tunnel endpoints (super administrators only): status
//! and toggle.

use vstd::prelude::*;
use crate::api::error::{ApiError, bad_request};
use crate::text::append_str;

verus! {

/// The message when no tunnel is configured (no FRP server).
pub fn tun_unconfigured_message() -> (r: &'static str)
    ensures
        r@ == "tun 通道未配置（FRP_SERVER 未设置）"@,
{
    "tun 通道未配置（FRP_SERVER 未设置）"
}

/// What a toggle does.
#[derive(Debug, Clone, Copy, PartialEq, Eq, Structural)]
pub enum TunToggle {
    /// The tunnel runs: close it.
    Close,
    /// The tunnel is down: open it.
    Open,
}

/// The toggle of the tunnel: refused when none is configured, otherwise
/// the opposite of its current state.
pub fn toggle_plan(configured: bool, currently_active: bool) -> (r: Result<TunToggle, ApiError>)
    ensures
        !configured ==> (r matches Err(ApiError::BadRequest(m)) && m@ == "tun 通道未配置（FRP_SERVER 未设置）"@),
        configured && currently_active ==> r == Ok::<TunToggle, ApiError>(TunToggle::Close),
        configured && !currently_active ==> r == Ok::<TunToggle, ApiError>(TunToggle::Open),
{
    if !configured {
        return Err(bad_request(tun_unconfigured_message()));
    }
    if currently_active {
        Ok(TunToggle::Close)
    } else {
        Ok(TunToggle::Open)
    }
}

/// The detail of the audit record of an opening: `{"service_id":"<id>"}`
/// (empty when the status has none).
pub open spec fn open_detail_spec(service_id: Option<Seq<char>>) -> Seq<char> {
    "{\"service_id\":\""@ + (match service_id { Some(s) => s, None => Seq::empty() }) + "\"}"@
}

/// Renders the audit detail of an opening.
pub fn open_audit_detail(service_id: Option<&str>) -> (r: String)
    ensures
        r@ == open_detail_spec(match service_id { Some(s) => Some(s@), None => None }),
{
    let mut d = String::new();
    append_str(&mut d, "{\"service_id\":\"");
    match service_id {
        Some(s) => append_str(&mut d, s),
        None => {},
    }
    append_str(&mut d, "\"}");
    assert(d@ =~= open_detail_spec(match service_id { Some(s) => Some(s@), None => None }));
    d
}

/// A failing open or close is an internal error with the failure's text.
pub fn toggle_failure(message: String) -> (r: ApiError)
    ensures
        r == ApiError::Internal(message),
{
    ApiError::Internal(message)
}

} // verus!
