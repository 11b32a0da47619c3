use token_hub::billing::estimator::estimate_prompt_tokens;
use token_hub::billing::usage_source::{resolve_usage, UpstreamUsage};
use token_hub::domain::UsageSource;

#[test]
fn upstream_usage_preferred() {
    let upstream = UpstreamUsage { prompt_tokens: Some(100), completion_tokens: Some(50), total_tokens: Some(150) };
    let resolved = resolve_usage(Some(&upstream), "some prompt", "some response");
    assert_eq!(resolved.tokens.prompt_tokens, 100);
    assert_eq!(resolved.tokens.completion_tokens, 50);
    assert_eq!(resolved.source, UsageSource::Upstream);
}

#[test]
fn tiktoken_fallback_when_no_usage() {
    let resolved = resolve_usage(None, "Hello world test", "Response here");
    assert_eq!(resolved.source, UsageSource::TiktokenFallback);
    assert!(resolved.tokens.prompt_tokens > 0);
    assert!(resolved.tokens.completion_tokens > 0);
}

#[test]
fn tiktoken_fallback_when_usage_empty() {
    let upstream = UpstreamUsage::default();
    let resolved = resolve_usage(Some(&upstream), "Hello", "World");
    assert_eq!(resolved.source, UsageSource::TiktokenFallback);
}

#[test]
fn upstream_partial_usage_still_authoritative() {
    let upstream = UpstreamUsage { prompt_tokens: Some(200), completion_tokens: None, total_tokens: None };
    let resolved = resolve_usage(Some(&upstream), "x", "y");
    assert_eq!(resolved.tokens.prompt_tokens, 200);
    assert_eq!(resolved.tokens.completion_tokens, 0);
    assert_eq!(resolved.source, UsageSource::Upstream);
}

#[test]
fn fallback_uses_the_estimator_on_both_texts() {
    let resolved = resolve_usage(None, "Hello world test", "Response here");
    assert_eq!(resolved.tokens.prompt_tokens, estimate_prompt_tokens("Hello world test"));
    assert_eq!(resolved.tokens.completion_tokens, estimate_prompt_tokens("Response here"));
}

#[test]
fn only_total_reported_is_not_authoritative() {
    let upstream = UpstreamUsage { prompt_tokens: None, completion_tokens: None, total_tokens: Some(9) };
    let resolved = resolve_usage(Some(&upstream), "a", "b");
    assert_eq!(resolved.source, UsageSource::TiktokenFallback);
}

#[test]
fn usage_source_names_roundtrip() {
    assert_eq!(UsageSource::Upstream.as_str(), "upstream");
    assert_eq!(UsageSource::TiktokenFallback.as_str(), "tiktoken_fallback");
    assert_eq!(UsageSource::from_db("tiktoken_fallback"), UsageSource::TiktokenFallback);
    assert_eq!(UsageSource::from_db("upstream"), UsageSource::Upstream);
    assert_eq!(UsageSource::from_db("anything else"), UsageSource::Upstream);
}
