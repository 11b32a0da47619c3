//! Credits: balance lookup, adjustment by a delta, setting a target
//! balance, and the ledger.

use vstd::prelude::*;
use crate::api::error::{ApiError, bad_request};

verus! {

/// Parameters of a balance lookup.
#[derive(Debug, Clone)]
pub struct GetCreditsParams {
    pub account_id: Option<String>,
}

/// Body of an adjustment: a signed delta.
#[derive(Debug, Clone)]
pub struct AdjustReq {
    pub account_id: String,
    pub delta: i64,
    pub reason: Option<String>,
}

/// Body of a set: the target balance.
#[derive(Debug, Clone)]
pub struct SetReq {
    pub balance: i64,
    pub reason: Option<String>,
}

/// Parameters of the ledger listing.
#[derive(Debug, Clone)]
pub struct TxParams {
    pub account_id: String,
    pub limit: i64,
    pub offset: i64,
}

/// The ledger page size when none is given.
pub fn default_limit() -> (r: i64)
    ensures
        r == 50,
{
    50
}

/// A balance lookup names its account.
pub fn require_account_id(account_id: Option<String>) -> (r: Result<String, ApiError>)
    ensures
        match account_id {
            Some(a) => r == Ok::<String, ApiError>(a),
            None => r matches Err(ApiError::BadRequest(m)) && m@ == "account_id required"@,
        },
{
    match account_id {
        Some(a) => Ok(a),
        None => Err(bad_request("account_id required")),
    }
}

/// The delta that brings the current balance to the target.
pub fn set_delta(target: i64, current: i64) -> (r: i64)
    requires
        i64::MIN <= target - current <= i64::MAX,
    ensures
        r == target - current,
        current + r == target,
{
    target - current
}

/// The balance after an adjustment; the ledger refuses (`None`) a negative
/// delta larger than the balance.
pub fn adjusted_balance(outcome: Option<i64>) -> (r: Result<i64, ApiError>)
    ensures
        match outcome {
            Some(b) => r == Ok::<i64, ApiError>(b),
            None => r matches Err(ApiError::BadRequest(m)) && m@ == "insufficient balance for negative delta"@,
        },
{
    match outcome {
        Some(b) => Ok(b),
        None => Err(bad_request("insufficient balance for negative delta")),
    }
}

} // verus!
