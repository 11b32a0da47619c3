//! Provider credentials (listed with the key masked), their status, their
//! quota, and the model-to-provider mappings.

use vstd::prelude::*;
use crate::api::admin::{prefixed_id, uuid_shaped};
use crate::billing::rates::{div_toward_zero, div_toward_zero_i64, is_quotient_toward_zero,
    lemma_div_toward_zero_monotone, lemma_div_toward_zero_quotient};
use crate::domain::provider::{ProviderCredential, ProviderStatus};

verus! {

/// Body of a provider creation.
#[derive(Debug, Clone)]
pub struct CreateProviderReq {
    pub name: String,
    pub provider_type: String,
    pub base_url: String,
    pub api_key: String,
    pub quota_limit: Option<i64>,
    /// Alert threshold in percent.
    pub quota_threshold: i32,
}

/// The alert threshold when none is given: 80 percent.
pub fn default_threshold() -> (r: i32)
    ensures
        r == 80,
{
    80
}

/// Body of a provider update (`api_key: None` keeps the key).
#[derive(Debug, Clone)]
pub struct UpdateProviderReq {
    pub name: String,
    pub base_url: String,
    pub api_key: Option<String>,
    pub quota_limit: Option<i64>,
    pub quota_threshold: i32,
}

/// Body of a provider disable.
#[derive(Debug, Clone)]
pub struct DisableProviderReq {
    pub reason: Option<String>,
}

/// Body of a quota calibration with the provider's own figure.
#[derive(Debug, Clone)]
pub struct SyncQuotaReq {
    pub official_used: i64,
}

/// Parameters of the mapping list.
#[derive(Debug, Clone)]
pub struct MapListParams {
    pub logical_model_id: Option<String>,
}

/// Body of a mapping creation.
#[derive(Debug, Clone)]
pub struct CreateMapReq {
    pub logical_model_id: String,
    pub provider_id: String,
    pub upstream_model: String,
    pub level: i32,
    pub weight: i32,
    pub strategy: String,
    pub enabled: bool,
}

/// Body of a mapping update.
#[derive(Debug, Clone)]
pub struct UpdateMapReq {
    pub level: i32,
    pub weight: i32,
    pub strategy: String,
    pub enabled: bool,
}

/// A new provider id: `prov_` and a random UUID.
pub fn new_provider_id() -> (r: String)
    ensures
        exists|u: Seq<char>| uuid_shaped(u) && r@ == "prov_"@ + u,
{
    prefixed_id("prov_")
}

/// A provider as shown to clients: every field but the key, which reads
/// `****`.
#[derive(Debug, Clone)]
pub struct MaskedProvider {
    pub id: String,
    pub name: String,
    pub provider_type: String,
    pub base_url: String,
    pub api_key: String,
    pub status: ProviderStatus,
    pub disabled_reason: Option<String>,
    pub disabled_at: Option<i64>,
    pub quota_limit: Option<i64>,
    pub quota_used: i64,
    pub quota_threshold: i32,
    pub quota_alert_sent: bool,
    pub quota_synced_at: Option<i64>,
    pub created_at: i64,
    pub updated_at: i64,
}

/// The masked view of a provider.
pub fn mask_provider(p: &ProviderCredential) -> (r: MaskedProvider)
    ensures
        r.id == p.id,
        r.name == p.name,
        r.provider_type == p.provider_type,
        r.base_url == p.base_url,
        r.api_key@ == "****"@,
        r.status == p.status,
        r.disabled_reason == p.disabled_reason,
        r.disabled_at == p.disabled_at,
        r.quota_limit == p.quota_limit,
        r.quota_used == p.quota_used,
        r.quota_threshold == p.quota_threshold,
        r.quota_alert_sent == p.quota_alert_sent,
        r.quota_synced_at == p.quota_synced_at,
        r.created_at == p.created_at,
        r.updated_at == p.updated_at,
{
    let disabled_reason = match &p.disabled_reason {
        Some(s) => Some(s.clone()),
        None => None,
    };
    MaskedProvider {
        id: p.id.clone(),
        name: p.name.clone(),
        provider_type: p.provider_type.clone(),
        base_url: p.base_url.clone(),
        api_key: String::from_str("****"),
        status: p.status,
        disabled_reason,
        disabled_at: p.disabled_at,
        quota_limit: p.quota_limit,
        quota_used: p.quota_used,
        quota_threshold: p.quota_threshold,
        quota_alert_sent: p.quota_alert_sent,
        quota_synced_at: p.quota_synced_at,
        created_at: p.created_at,
        updated_at: p.updated_at,
    }
}

/// The name of a provider status.
pub open spec fn provider_status_name(s: ProviderStatus) -> Seq<char> {
    match s {
        ProviderStatus::Active => "active"@,
        ProviderStatus::Disabled => "disabled"@,
    }
}

/// The name of a provider status.
pub fn status_name(s: ProviderStatus) -> (r: &'static str)
    ensures
        r@ == provider_status_name(s),
{
    match s {
        ProviderStatus::Active => "active",
        ProviderStatus::Disabled => "disabled",
    }
}

/// The quota percentage of the cost report: `used * 100 / limit` toward
/// zero for a positive limit, 0 without one.
pub open spec fn quota_percentage_spec(used: i64, limit: Option<i64>) -> int {
    match limit {
        Some(l) => if l > 0 { div_toward_zero(used * 100, l as int) } else { 0 },
        None => 0,
    }
}

/// Computes the quota percentage of the cost report.
pub fn quota_percentage(used: i64, limit: Option<i64>) -> (r: i64)
    requires
        (limit matches Some(l) && l > 0) ==> i64::MIN <= used * 100 <= i64::MAX,
    ensures
        r == quota_percentage_spec(used, limit),
{
    match limit {
        Some(l) => if l > 0 { div_toward_zero_i64(used * 100, l) } else { 0 },
        None => 0,
    }
}

/// A provider's quota state: used, limit, alert threshold, alert sent.
#[derive(Debug, Clone, Copy)]
pub struct QuotaState {
    pub used: i64,
    pub limit: Option<i64>,
    pub threshold: i32,
    pub alert_sent: bool,
}

/// The quota state of the cost report for a provider without a record:
/// nothing used, no limit, the default threshold, no alert.
pub fn quota_or_default(q: Option<QuotaState>) -> (r: QuotaState)
    ensures
        match q {
            Some(s) => r == s,
            None => r.used == 0 && r.limit is None && r.threshold == 80 && !r.alert_sent,
        },
{
    match q {
        Some(s) => s,
        None => QuotaState { used: 0, limit: None, threshold: default_threshold(), alert_sent: false },
    }
}

/// For a positive limit the reported percentage is exactly
/// `used * 100 / limit` rounded toward zero: the `p` that keeps
/// `p * limit <= used * 100 < (p + 1) * limit` (for non-negative usage).
pub proof fn lemma_quota_percentage_exact(used: i64, lim: i64, p: int)
    requires
        lim > 0,
        is_quotient_toward_zero(used * 100, lim as int, p),
    ensures
        quota_percentage_spec(used, Some(lim)) == p,
{
    lemma_div_toward_zero_quotient(used * 100, lim as int, p);
}

/// More usage never shows a lower percentage, and a quota that is used up
/// shows at least 100.
pub proof fn lemma_quota_percentage_monotone(used1: i64, used2: i64, lim: i64)
    requires
        used1 <= used2,
        lim > 0,
    ensures
        quota_percentage_spec(used1, Some(lim)) <= quota_percentage_spec(used2, Some(lim)),
        used1 >= lim ==> quota_percentage_spec(used1, Some(lim)) >= 100,
{
    lemma_div_toward_zero_monotone(used1 * 100, used2 * 100, lim as int);
    if used1 >= lim {
        lemma_div_toward_zero_monotone(lim * 100, used1 * 100, lim as int);
        lemma_div_toward_zero_quotient(lim * 100, lim as int, 100);
    }
}

} // verus!
