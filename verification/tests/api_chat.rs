use token_hub::api::chat::{
    active_candidates, attempt_plan, completion_text, estimate_hold, hold_credits, list_model_names,
    map_upstream_error, prompt_text, quota_alert, quota_alert_message, quota_alert_title, reject_streaming,
    resolve_model, settle_credits, usage_summary, AttemptOutcome, AttemptStep, ChatMessage, RouteChoice,
    UpstreamAttempts, UpstreamError,
};
use token_hub::api::ApiError;
use token_hub::billing::estimator::estimate_prompt_tokens;
use token_hub::billing::rates::UsageTokens;
use token_hub::domain::credit::Credits;
use token_hub::domain::model::LogicalModel;
use token_hub::domain::provider::ProviderStatus;

fn model(name: &str, status: &str, input: i64, output: i64) -> LogicalModel {
    LogicalModel {
        id: format!("mdl_{name}"),
        logical_name: name.to_string(),
        description: None,
        input_rate_per_1k: input,
        output_rate_per_1k: output,
        status: status.to_string(),
        created_at: 0,
        updated_at: 0,
    }
}

fn choice(p: &str, m: &str) -> RouteChoice {
    RouteChoice { provider_id: p.to_string(), upstream_model: m.to_string() }
}

fn msg(role: &str, content: &str) -> ChatMessage {
    ChatMessage { role: role.to_string(), content: content.to_string() }
}

#[test]
fn streaming_is_refused() {
    assert_eq!(reject_streaming(true), Err(ApiError::BadRequest("streaming not yet implemented".to_string())));
    assert!(reject_streaming(false).is_ok());
}

#[test]
fn unknown_model_is_quoted() {
    assert_eq!(
        resolve_model("turbo", None).unwrap_err(),
        ApiError::BadRequest("unknown model: turbo".to_string())
    );
    assert_eq!(resolve_model("basic", Some(model("basic", "active", 1, 1))).unwrap().logical_name, "basic");
}

#[test]
fn candidates_keep_active_providers_in_order() {
    let statuses = vec![
        Some(ProviderStatus::Disabled),
        Some(ProviderStatus::Active),
        None,
        Some(ProviderStatus::Active),
    ];
    assert_eq!(active_candidates(&statuses), Ok(vec![1, 3]));
    assert_eq!(active_candidates(&vec![]), Err(ApiError::NoProvider));
    assert_eq!(active_candidates(&vec![None, Some(ProviderStatus::Disabled)]), Err(ApiError::NoProvider));
}

#[test]
fn prompt_and_completion_texts() {
    let msgs = vec![msg("system", "be brief"), msg("user", "hi")];
    assert_eq!(prompt_text(&msgs), "system: be brief\nuser: hi");
    assert_eq!(prompt_text(&vec![]), "");
    let contents = vec![Some("a".to_string()), None, Some("b".to_string())];
    assert_eq!(completion_text(&contents), "a\nb");
    assert_eq!(completion_text(&vec![None]), "");
}

#[test]
fn hold_is_at_least_one_credit() {
    let m = model("basic", "active", 20, 60);
    assert_eq!(hold_credits(0, &m), 1);
    assert_eq!(hold_credits(1000, &m), 20);
    assert_eq!(hold_credits(10, &m), 1);
    let text = "hello there";
    let expected = hold_credits(estimate_prompt_tokens(text), &m);
    assert_eq!(estimate_hold(text, &m), expected);
}

#[test]
fn settlement_never_negative() {
    let m = model("basic", "active", 20, 60);
    assert_eq!(settle_credits(&UsageTokens { prompt_tokens: 1000, completion_tokens: 500 }, &m), 50);
    let neg = model("odd", "active", -20, 0);
    assert_eq!(settle_credits(&UsageTokens { prompt_tokens: 1000, completion_tokens: 0 }, &neg), 0);
}

#[test]
fn plan_skips_inactive_providers() {
    let ordered = vec![choice("p1", "m1"), choice("p2", "m2"), choice("p3", "m3")];
    let plan = attempt_plan(&ordered, &vec!["p3".to_string(), "p1".to_string()]);
    let keys: Vec<_> = plan.iter().map(|c| (c.provider_id.clone(), c.upstream_model.clone())).collect();
    assert_eq!(keys, vec![("p1".to_string(), "m1".to_string()), ("p3".to_string(), "m3".to_string())]);
}

#[test]
fn attempts_fall_back_then_settle() {
    let (mut att, step) = UpstreamAttempts::start(vec![choice("p1", "m1"), choice("p2", "m2")]);
    match step {
        AttemptStep::Call(c) => assert_eq!(c.provider_id, "p1"),
        other => panic!("unexpected {other:?}"),
    }
    let d = att.on_outcome(AttemptOutcome::DisableAndFallback { reason: "quota".to_string() });
    let order = d.disable.unwrap();
    assert_eq!(order.provider_id, "p1");
    assert_eq!(order.reason, "quota");
    match d.step {
        AttemptStep::Call(c) => assert_eq!((c.provider_id.as_str(), c.upstream_model.as_str()), ("p2", "m2")),
        other => panic!("unexpected {other:?}"),
    }
    let d2 = att.on_outcome(AttemptOutcome::Answered);
    assert!(d2.disable.is_none());
    match d2.step {
        AttemptStep::Settle(c) => assert_eq!(c.provider_id, "p2"),
        other => panic!("unexpected {other:?}"),
    }
}

#[test]
fn attempts_fail_after_last_fallback_or_fatal_error() {
    let (mut att, _) = UpstreamAttempts::start(vec![choice("p1", "m1")]);
    let d = att.on_outcome(AttemptOutcome::DisableAndFallback { reason: "402".to_string() });
    match d.step {
        AttemptStep::Fail(e) => assert_eq!(e, ApiError::Upstream("provider unavailable: 402".to_string())),
        other => panic!("unexpected {other:?}"),
    }
    let (mut att2, _) = UpstreamAttempts::start(vec![choice("p1", "m1"), choice("p2", "m2")]);
    let d2 = att2.on_outcome(AttemptOutcome::Fatal(UpstreamError::Timeout));
    assert!(d2.disable.is_none());
    match d2.step {
        AttemptStep::Fail(e) => assert_eq!(e, ApiError::Upstream("upstream timeout".to_string())),
        other => panic!("unexpected {other:?}"),
    }
    let (_, empty) = UpstreamAttempts::start(vec![]);
    match empty {
        AttemptStep::Fail(e) => assert_eq!(e, ApiError::NoProvider),
        other => panic!("unexpected {other:?}"),
    }
}

#[test]
fn upstream_errors_are_quoted() {
    let long = "x".repeat(300);
    assert_eq!(
        map_upstream_error(UpstreamError::Status { status: 429, body: long }),
        ApiError::Upstream(format!("upstream 429: {}", "x".repeat(200)))
    );
    assert_eq!(
        map_upstream_error(UpstreamError::Status { status: 500, body: "oops".to_string() }),
        ApiError::Upstream("upstream 500: oops".to_string())
    );
    assert_eq!(
        map_upstream_error(UpstreamError::Connect("refused".to_string())),
        ApiError::Upstream("connect: refused".to_string())
    );
    assert_eq!(map_upstream_error(UpstreamError::Other("boom".to_string())), ApiError::Upstream("boom".to_string()));
}

#[test]
fn quota_alerts_once_at_threshold() {
    assert_eq!(quota_alert(80, Some(100), 80, false), Some(80));
    assert_eq!(quota_alert(79, Some(100), 80, false), None);
    assert_eq!(quota_alert(95, Some(100), 80, true), None);
    assert_eq!(quota_alert(95, None, 80, false), None);
    assert_eq!(quota_alert(95, Some(0), 80, false), None);
    assert_eq!(quota_alert_title(), "供应商额度告警");
    assert_eq!(
        quota_alert_message(Some("OpenAI"), "prov_1", 85, 850, 1000),
        "供应商 OpenAI(prov_1) 额度已达 85%（850/1000），请及时处理。"
    );
    assert_eq!(
        quota_alert_message(None, "prov_1", 85, 850, 1000),
        "供应商 prov_1(prov_1) 额度已达 85%（850/1000），请及时处理。"
    );
}

#[test]
fn models_list_and_usage_summary() {
    let models = vec![model("basic", "active", 1, 1), model("old", "disabled", 1, 1), model("expert", "active", 1, 1)];
    assert_eq!(list_model_names(&models), vec!["basic".to_string(), "expert".to_string()]);
    let credits = Credits { account_id: "a".to_string(), balance: 700, held: 5, version: 3, updated_at: 0 };
    let s = usage_summary(Some(credits), 300, 12);
    assert_eq!((s.total_credits, s.used_credits, s.remaining_credits, s.calls_this_month), (700, 300, 700, 12));
    let none = usage_summary(None, 0, 0);
    assert_eq!((none.total_credits, none.remaining_credits), (0, 0));
}
