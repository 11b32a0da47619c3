use token_hub::billing::estimator::{estimate_messages_tokens, estimate_prompt_tokens, try_estimate_messages_tokens};

#[test]
fn estimate_nonzero() {
    let tokens = estimate_prompt_tokens("Hello world, this is a test of tokenization.");
    assert!(tokens > 0, "should estimate some tokens");
    assert!(tokens < 30, "should be reasonable, got {tokens}");
}

#[test]
fn empty_string_zero() {
    assert_eq!(estimate_prompt_tokens(""), 0);
}

#[test]
fn messages_adds_overhead() {
    let tokens = estimate_messages_tokens(&["Hello".to_string(), "World".to_string()]);
    assert!(tokens >= 10, "should include overhead, got {tokens}");
}

#[test]
fn chinese_text_estimates() {
    let tokens = estimate_prompt_tokens("你好世界，这是一个测试");
    assert!(tokens > 0, "chinese text should estimate tokens, got {tokens}");
}

#[test]
fn messages_estimate_is_sum_plus_overheads() {
    let a = estimate_prompt_tokens("Hello");
    let b = estimate_prompt_tokens("World");
    let total = estimate_messages_tokens(&["Hello".to_string(), "World".to_string()]);
    assert_eq!(total, a + 4 + b + 4 + 2);
    assert_eq!(estimate_messages_tokens(&[]), 2);
}

#[test]
fn checked_messages_estimate_matches() {
    let msgs = vec!["Hello".to_string(), "World".to_string()];
    assert_eq!(try_estimate_messages_tokens(&msgs), Some(estimate_messages_tokens(&msgs)));
}

#[test]
fn very_long_text_is_estimated_by_characters() {
    let long = "a".repeat(100_001);
    assert_eq!(estimate_prompt_tokens(&long), 100_001);
}
