use token_hub::billing::rates::{compute_credits, UsageTokens};

#[test]
fn basic_rate_calculation() {
    let usage = UsageTokens { prompt_tokens: 1000, completion_tokens: 500 };
    assert_eq!(compute_credits(&usage, 20, 60), 50);
}

#[test]
fn fractional_floors_down() {
    let usage = UsageTokens { prompt_tokens: 100, completion_tokens: 50 };
    assert_eq!(compute_credits(&usage, 20, 60), 5);
    let usage2 = UsageTokens { prompt_tokens: 150, completion_tokens: 0 };
    assert_eq!(compute_credits(&usage2, 20, 60), 3);
}

#[test]
fn sub_thousand_still_charges() {
    let usage = UsageTokens { prompt_tokens: 999, completion_tokens: 0 };
    assert_eq!(compute_credits(&usage, 1, 0), 0);
    let usage2 = UsageTokens { prompt_tokens: 1001, completion_tokens: 0 };
    assert_eq!(compute_credits(&usage2, 1, 0), 1);
}

#[test]
fn zero_usage_zero_credits() {
    let usage = UsageTokens { prompt_tokens: 0, completion_tokens: 0 };
    assert_eq!(compute_credits(&usage, 100, 100), 0);
}

#[test]
fn large_values_no_overflow() {
    let usage = UsageTokens { prompt_tokens: 1_000_000, completion_tokens: 1_000_000 };
    assert_eq!(compute_credits(&usage, 100, 100), 200000);
}

#[test]
fn separate_input_output_rates() {
    let usage = UsageTokens { prompt_tokens: 2000, completion_tokens: 1000 };
    assert_eq!(compute_credits(&usage, 10, 30), 50);
}

#[test]
fn saturating_product_then_division() {
    let usage = UsageTokens { prompt_tokens: i64::MAX, completion_tokens: 0 };
    assert_eq!(compute_credits(&usage, 2, 0), i64::MAX / 1000);
}

#[test]
fn negative_rates_round_toward_zero() {
    let usage = UsageTokens { prompt_tokens: 1500, completion_tokens: 0 };
    assert_eq!(compute_credits(&usage, -1, 0), -1);
}

#[test]
fn usage_total_adds_both_sides() {
    let usage = UsageTokens { prompt_tokens: 120, completion_tokens: 30 };
    assert_eq!(usage.total(), 150);
    let d = UsageTokens::default();
    assert_eq!(d.total(), 0);
}
