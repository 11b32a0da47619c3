//! Billing core: credit rates, token estimation and the choice of the
//! metered usage.
//!
//! Billing is authoritative on the upstream `usage`; the tokenizer is used
//! only to estimate pre-frozen amounts and as a fallback when no usage is
//! returned. Credits are integers: tokens * rate_per_1k / 1000.

pub mod rates;
pub mod estimator;
pub mod usage_source;

pub use rates::{compute_credits, UsageTokens};
pub use estimator::estimate_prompt_tokens;
pub use usage_source::{resolve_usage, ResolvedUsage, UpstreamUsage};
