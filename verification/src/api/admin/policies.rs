//! Policy templates and their binding to accounts.

use vstd::prelude::*;
use crate::api::admin::{prefixed_id, uuid_shaped};

verus! {

/// Body of a policy creation.
#[derive(Debug, Clone)]
pub struct CreatePolicyReq {
    pub name: String,
    pub allowed_models: Vec<String>,
    pub monthly_credit_cap: Option<i64>,
    pub description: Option<String>,
}

/// Body of a policy update.
#[derive(Debug, Clone)]
pub struct UpdatePolicyReq {
    pub name: String,
    pub allowed_models: Vec<String>,
    pub monthly_credit_cap: Option<i64>,
    pub description: Option<String>,
}

/// Body of a policy binding.
#[derive(Debug, Clone)]
pub struct BindPolicyReq {
    pub policy_id: String,
}

/// A new policy id: `pol_` and a random UUID.
pub fn new_policy_id() -> (r: String)
    ensures
        exists|u: Seq<char>| uuid_shaped(u) && r@ == "pol_"@ + u,
{
    prefixed_id("pol_")
}

} // verus!
