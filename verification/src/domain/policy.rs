//! Policy templates (allowed models, monthly cap).

use vstd::prelude::*;

verus! {

/// A policy template bound to accounts.
#[derive(Debug, Clone)]
pub struct Policy {
    pub id: String,
    pub name: String,
    /// Logical model names the account may use.
    pub allowed_models: Vec<String>,
    /// Optional monthly credit cap.
    pub monthly_credit_cap: Option<i64>,
    pub description: Option<String>,
    pub created_at: i64,
    pub updated_at: i64,
}

} // verus!
