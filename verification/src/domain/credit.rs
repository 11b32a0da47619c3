//! Credit balances, holds and transactions.

use vstd::prelude::*;

verus! {

/// Credit balance of an account (optimistic locking: `version` serialises
/// concurrent deductions).
#[derive(Debug, Clone)]
pub struct Credits {
    pub account_id: String,
    /// Spendable balance.
    pub balance: i64,
    /// Amount currently held (pre-frozen, not yet settled).
    pub held: i64,
    /// Optimistic-lock version.
    pub version: i64,
    pub updated_at: i64,
}

/// State of a credit hold.
#[derive(Debug, Clone, Copy, PartialEq, Eq, Structural)]
pub enum HoldStatus {
    /// Frozen.
    Held,
    /// Settled against the actual usage.
    Settled,
    /// Released (no call was made, amount returned).
    Released,
}

/// A pre-frozen amount placed before an upstream call.
#[derive(Debug, Clone)]
pub struct CreditHold {
    pub id: String,
    pub account_id: String,
    pub amount: i64,
    pub status: HoldStatus,
    pub request_id: Option<String>,
    pub created_at: i64,
    pub settled_at: Option<i64>,
}

/// One ledger entry.
#[derive(Debug, Clone)]
pub struct CreditTransaction {
    pub id: String,
    pub account_id: String,
    /// Positive = top-up/adjustment, negative = deduction.
    pub delta: i64,
    pub balance_after: i64,
    pub reason: Option<String>,
    /// Admin id / service client id / "system".
    pub operator: Option<String>,
    pub created_at: i64,
}

} // verus!
