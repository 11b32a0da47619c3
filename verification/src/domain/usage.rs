//! Call logs and the source of the metered usage.

use vstd::prelude::*;
use crate::text::str_eq;

verus! {

/// Where the billed token counts came from.
#[derive(Debug, Clone, Copy, PartialEq, Eq, Structural)]
pub enum UsageSource {
    /// The upstream response's `usage` (authoritative, main path).
    Upstream,
    /// No upstream usage: estimated with the tokenizer (fallback).
    TiktokenFallback,
}

/// The stored name of a usage source.
pub open spec fn usage_source_name(s: UsageSource) -> Seq<char> {
    match s {
        UsageSource::Upstream => "upstream"@,
        UsageSource::TiktokenFallback => "tiktoken_fallback"@,
    }
}

impl UsageSource {
    /// The stored name.
    pub fn as_str(&self) -> (r: &'static str)
        ensures
            r@ == usage_source_name(*self),
    {
        match self {
            UsageSource::Upstream => "upstream",
            UsageSource::TiktokenFallback => "tiktoken_fallback",
        }
    }

    /// Reads a stored name; anything but `tiktoken_fallback` is `Upstream`.
    pub fn from_db(s: &str) -> (r: UsageSource)
        ensures
            r == (if s@ == "tiktoken_fallback"@ { UsageSource::TiktokenFallback } else { UsageSource::Upstream }),
    {
        if str_eq(s, "tiktoken_fallback") {
            UsageSource::TiktokenFallback
        } else {
            UsageSource::Upstream
        }
    }
}

/// Reading back the stored name of a usage source gives the same source.
pub proof fn lemma_usage_source_roundtrip(s: UsageSource)
    ensures
        (if usage_source_name(s) == "tiktoken_fallback"@ { UsageSource::TiktokenFallback } else { UsageSource::Upstream }) == s,
{
    reveal_strlit("upstream");
    reveal_strlit("tiktoken_fallback");
    assert("upstream"@.len() != "tiktoken_fallback"@.len());
}

/// One call log row (per request; tagged by account and provider).
#[derive(Debug, Clone)]
pub struct UsageLog {
    pub id: String,
    pub account_id: String,
    pub logical_model: String,
    pub provider_id: Option<String>,
    pub upstream_model: Option<String>,
    pub prompt_tokens: Option<i64>,
    pub completion_tokens: Option<i64>,
    pub total_tokens: Option<i64>,
    pub credits_cost: i64,
    pub usage_source: UsageSource,
    /// success / failed / fallback
    pub status: String,
    pub source_ip: Option<String>,
    pub created_at: i64,
}

} // verus!
