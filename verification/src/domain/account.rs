//! Accounts (application users / business accounts).

use vstd::prelude::*;

verus! {

/// Lifecycle state of an account.
#[derive(Debug, Clone, Copy, PartialEq, Eq, Structural)]
pub enum AccountStatus {
    Active,
    Disabled,
}

impl Default for AccountStatus {
    fn default() -> (r: Self)
        ensures
            r == AccountStatus::Active,
    {
        AccountStatus::Active
    }
}

/// A business account that owns API tokens and a credit ledger.
#[derive(Debug, Clone)]
pub struct Account {
    pub id: String,
    pub external_id: Option<String>,
    pub status: AccountStatus,
    pub policy_id: Option<String>,
    pub note: Option<String>,
    pub created_at: i64,
    pub updated_at: i64,
}

} // verus!
