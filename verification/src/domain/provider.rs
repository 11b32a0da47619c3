//! Provider credentials and their status.

use vstd::prelude::*;

verus! {

/// Availability of an upstream provider.
#[derive(Debug, Clone, Copy, PartialEq, Eq, Structural)]
pub enum ProviderStatus {
    /// Usable.
    Active,
    /// Disabled (quota exhausted or disabled by an admin; never re-enabled automatically).
    Disabled,
}

impl Default for ProviderStatus {
    fn default() -> (r: Self)
        ensures
            r == ProviderStatus::Active,
    {
        ProviderStatus::Active
    }
}

/// Provider credential, with the quota monitoring fields.
#[derive(Debug, Clone)]
pub struct ProviderCredential {
    pub id: String,
    pub name: String,
    /// openai/anthropic/gemini/custom
    pub provider_type: String,
    pub base_url: String,
    /// The stored api key (must be masked before it is shown).
    pub api_key_enc: String,
    pub status: ProviderStatus,
    pub disabled_reason: Option<String>,
    pub disabled_at: Option<i64>,
    /// Quota limit.
    pub quota_limit: Option<i64>,
    /// Usage accumulated by the platform.
    pub quota_used: i64,
    /// Alert threshold in percent (default 80).
    pub quota_threshold: i32,
    /// Whether the alert has already been sent.
    pub quota_alert_sent: bool,
    pub quota_synced_at: Option<i64>,
    pub created_at: i64,
    pub updated_at: i64,
}

/// The view of a provider shown to clients (the api key masked).
#[derive(Debug, Clone)]
pub struct ProviderCredentialView {
    pub id: String,
    pub name: String,
    pub provider_type: String,
    pub base_url: String,
    pub api_key_masked: String,
    pub status: ProviderStatus,
    pub disabled_reason: Option<String>,
    pub disabled_at: Option<i64>,
    pub quota_limit: Option<i64>,
    pub quota_used: i64,
    pub quota_threshold: i32,
    pub quota_alert_sent: bool,
    pub created_at: i64,
    pub updated_at: i64,
}

} // verus!
