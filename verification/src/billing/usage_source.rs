//! Choosing the metered usage: the upstream usage when present, otherwise a
//! tokenizer estimate (marked as a fallback).

use vstd::prelude::*;
use crate::billing::estimator::{estimate_prompt_tokens, estimate_spec};
use crate::billing::rates::UsageTokens;
use crate::domain::UsageSource;

verus! {

/// The usage returned by an upstream (OpenAI format).
#[derive(Debug, Clone)]
pub struct UpstreamUsage {
    pub prompt_tokens: Option<i64>,
    pub completion_tokens: Option<i64>,
    pub total_tokens: Option<i64>,
}

impl Default for UpstreamUsage {
    fn default() -> (r: Self)
        ensures
            r.prompt_tokens is None,
            r.completion_tokens is None,
            r.total_tokens is None,
    {
        UpstreamUsage { prompt_tokens: None, completion_tokens: None, total_tokens: None }
    }
}

/// The chosen usage and where it came from.
#[derive(Debug, Clone)]
pub struct ResolvedUsage {
    pub tokens: UsageTokens,
    pub source: UsageSource,
}

/// Whether an upstream usage is authoritative: it reports at least one of
/// the prompt or completion counts.
pub open spec fn upstream_reports(upstream: Option<UpstreamUsage>) -> bool {
    match upstream {
        Some(u) => u.prompt_tokens is Some || u.completion_tokens is Some,
        None => false,
    }
}

fn or_zero(x: Option<i64>) -> (r: i64)
    ensures
        r == (match x { Some(v) => v, None => 0 }),
{
    match x {
        Some(v) => v,
        None => 0,
    }
}

/// Uses the upstream usage when it reports prompt or completion tokens (a
/// missing side counts 0, source `Upstream`); otherwise estimates both
/// texts with the tokenizer (source `TiktokenFallback`).
pub fn resolve_usage(upstream: Option<&UpstreamUsage>, prompt_text: &str, completion_text: &str) -> (r: ResolvedUsage)
    ensures
        upstream_reports(match upstream { Some(u) => Some(*u), None => None }) ==> {
            let u = *upstream->0;
            &&& r.source == UsageSource::Upstream
            &&& r.tokens.prompt_tokens == (match u.prompt_tokens { Some(v) => v, None => 0 })
            &&& r.tokens.completion_tokens == (match u.completion_tokens { Some(v) => v, None => 0 })
        },
        !upstream_reports(match upstream { Some(u) => Some(*u), None => None }) ==> {
            &&& r.source == UsageSource::TiktokenFallback
            &&& r.tokens.prompt_tokens == estimate_spec(prompt_text@)
            &&& r.tokens.completion_tokens == estimate_spec(completion_text@)
        },
{
    if let Some(u) = upstream {
        if u.prompt_tokens.is_some() || u.completion_tokens.is_some() {
            return ResolvedUsage {
                tokens: UsageTokens {
                    prompt_tokens: or_zero(u.prompt_tokens),
                    completion_tokens: or_zero(u.completion_tokens),
                },
                source: UsageSource::Upstream,
            };
        }
    }
    ResolvedUsage {
        tokens: UsageTokens {
            prompt_tokens: estimate_prompt_tokens(prompt_text),
            completion_tokens: estimate_prompt_tokens(completion_text),
        },
        source: UsageSource::TiktokenFallback,
    }
}

} // verus!
