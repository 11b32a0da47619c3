use token_hub::api::admin::accounts::{account_note, new_account_id};
use token_hub::api::admin::auth::{
    check_grant_type, issue_session_pair, login_verdict, refresh_verdict, scope_string, service_credentials_verdict,
    token_response, RefreshRecord, ServiceAuth, ACCESS_TOKEN_TTL_SECS, REFRESH_TOKEN_TTL_SECS,
};
use token_hub::api::admin::credits::{adjusted_balance, require_account_id, set_delta};
use token_hub::api::admin::devices::{new_device_credential, removed_or_not_found};
use token_hub::api::admin::providers::{default_threshold, mask_provider, quota_or_default, quota_percentage, status_name};
use token_hub::api::admin::reports::{log_page, report_period, report_period_from, usage_report, AccountUsageRow};
use token_hub::api::admin::services::{new_service, rewrites_scopes, UpdateServiceReq};
use token_hub::api::admin::tokens::{issue_token, mask_hash, token_account, token_list_item};
use token_hub::api::admin::tun::{open_audit_detail, toggle_failure, toggle_plan, TunToggle};
use token_hub::api::admin::{admin_audit, changed_or_not_found, found_or_not_found};
use token_hub::api::auth_admin::AdminUser;
use token_hub::api::error::{bad_request, unauthorized};
use token_hub::api::ApiError;
use token_hub::auth::password::hash_password;
use token_hub::auth::secret::ServerSecret;
use token_hub::auth::session::hash_session_token;
use token_hub::auth::token_hmac::hash_api_token;
use token_hub::auth::totp::generate_at;
use token_hub::domain::provider::{ProviderCredential, ProviderStatus};
use token_hub::domain::token::{ApiToken, TokenStatus};

fn uuid_like(s: &str) -> bool {
    s.len() == 36 && [8, 13, 18, 23].iter().all(|&i| &s[i..i + 1] == "-")
}

#[test]
fn identifiers_carry_prefix_and_uuid() {
    let id = new_account_id();
    assert!(id.starts_with("acct_"));
    assert!(uuid_like(&id[5..]));
    assert_ne!(new_account_id(), new_account_id());
}

#[test]
fn account_note_records_template() {
    assert_eq!(account_note(Some("vip"), Some("gold")), Some("vip [template=gold]".to_string()));
    assert_eq!(account_note(Some("vip"), None), Some("vip".to_string()));
    assert_eq!(account_note(None, Some("gold")), Some("[template=gold]".to_string()));
    assert_eq!(account_note(None, None), None);
}

#[test]
fn credit_rules() {
    assert_eq!(require_account_id(None), Err(bad_request("account_id required")));
    assert_eq!(require_account_id(Some("a".to_string())), Ok("a".to_string()));
    assert_eq!(set_delta(100, 130), -30);
    assert_eq!(adjusted_balance(Some(7)), Ok(7));
    assert_eq!(adjusted_balance(None), Err(bad_request("insufficient balance for negative delta")));
}

#[test]
fn not_found_rules() {
    assert_eq!(found_or_not_found::<i32>(None), Err(ApiError::NotFound));
    assert_eq!(found_or_not_found(Some(3)), Ok(3));
    assert_eq!(changed_or_not_found(false), Err(ApiError::NotFound));
    assert!(changed_or_not_found(true).is_ok());
    assert_eq!(removed_or_not_found(0), Err(ApiError::NotFound));
    assert!(removed_or_not_found(2).is_ok());
}

#[test]
fn audit_record_of_an_admin() {
    let r = admin_audit("adm_1", "credits.adjust", Some("account"), Some("acct_1"), Some("{}".to_string()), 42);
    assert_eq!(r.actor_kind, "admin");
    assert_eq!(r.actor_id, Some("adm_1".to_string()));
    assert_eq!(r.action, "credits.adjust");
    assert_eq!(r.target_kind, Some("account".to_string()));
    assert_eq!(r.target_id, Some("acct_1".to_string()));
    assert_eq!(r.detail, Some("{}".to_string()));
    assert_eq!(r.ip, None);
    assert_eq!(r.created_at, 42);
}

#[test]
fn login_rules() {
    let secret = "GEZDGNBVGY3TQOJQGEZDGNBVGY3TQOJQ";
    let hash = hash_password("pw").unwrap();
    let admin = AdminUser {
        id: "adm_1".to_string(),
        phone: "1".to_string(),
        password_hash: hash,
        totp_secret: secret.to_string(),
        roles: vec!["super_admin".to_string()],
        status: "active".to_string(),
    };
    let code = generate_at(secret, 1000).unwrap();
    assert_eq!(login_verdict(None, "pw", &code, 1000).unwrap_err(), unauthorized("invalid credentials"));
    assert_eq!(login_verdict(Some(admin.clone()), "bad", &code, 1000).unwrap_err(), unauthorized("invalid credentials"));
    assert_eq!(login_verdict(Some(admin.clone()), "pw", "000000", 1000).unwrap_err(), unauthorized("invalid totp code"));
    assert_eq!(login_verdict(Some(admin.clone()), "pw", &code, 10).unwrap_err(), unauthorized("invalid totp code"));
    let disabled = AdminUser { status: "disabled".to_string(), ..admin.clone() };
    assert_eq!(login_verdict(Some(disabled), "pw", &code, 1000).unwrap_err(), unauthorized("admin disabled"));
    assert_eq!(login_verdict(Some(admin), "pw", &code, 1000).unwrap().id, "adm_1");
}

#[test]
fn refresh_rules() {
    let rec = RefreshRecord { admin_id: "adm_1".to_string(), access_hash: "h".to_string(), expires_at: 100, revoked: false };
    assert_eq!(refresh_verdict(None, 0).unwrap_err(), unauthorized("invalid refresh token"));
    assert_eq!(refresh_verdict(Some(rec.clone()), 101).unwrap_err(), unauthorized("refresh token expired or revoked"));
    let revoked = RefreshRecord { revoked: true, ..rec.clone() };
    assert_eq!(refresh_verdict(Some(revoked), 0).unwrap_err(), unauthorized("refresh token expired or revoked"));
    assert_eq!(refresh_verdict(Some(rec), 100).unwrap().admin_id, "adm_1");
}

#[test]
fn session_pair_and_response() {
    let secret = ServerSecret::new("s");
    let pair = issue_session_pair(&secret, 1_000);
    assert_eq!(pair.access_expires_at, 1_000 + ACCESS_TOKEN_TTL_SECS);
    assert_eq!(pair.refresh_expires_at, 1_000 + REFRESH_TOKEN_TTL_SECS);
    assert_eq!(REFRESH_TOKEN_TTL_SECS, 7 * 24 * 3600);
    assert_eq!(pair.access_hash, hash_session_token(&pair.access_plain, &secret));
    assert_eq!(pair.refresh_hash, hash_session_token(&pair.refresh_plain, &secret));
    assert_ne!(pair.access_plain, pair.refresh_plain);
    let access = pair.access_plain.clone();
    let resp = token_response(pair);
    assert_eq!(resp.access_token, access);
    assert_eq!(resp.expires_in, 3600);
    assert_eq!(resp.token_type, "Bearer");
}

#[test]
fn client_credentials_rules() {
    assert_eq!(check_grant_type("password"), Err(bad_request("unsupported grant_type")));
    assert!(check_grant_type("client_credentials").is_ok());
    let secret = ServerSecret::new("s");
    let svc = ServiceAuth {
        id: "svc_1".to_string(),
        secret_hash: hash_api_token("scs_abc", &secret),
        scopes: vec!["accounts.read".to_string(), "credits.write".to_string()],
        status: "active".to_string(),
    };
    assert_eq!(service_credentials_verdict(None, "scs_abc", &secret).unwrap_err(), unauthorized("invalid client credentials"));
    assert_eq!(
        service_credentials_verdict(Some(svc.clone()), "scs_wrong", &secret).unwrap_err(),
        unauthorized("invalid client credentials")
    );
    let off = ServiceAuth { status: "disabled".to_string(), ..svc.clone() };
    assert_eq!(service_credentials_verdict(Some(off), "scs_abc", &secret).unwrap_err(), unauthorized("service disabled"));
    let ok = service_credentials_verdict(Some(svc), "scs_abc", &secret).unwrap();
    assert_eq!(scope_string(&ok.scopes), "accounts.read credits.write");
    assert_eq!(scope_string(&vec![]), "");
}

#[test]
fn issued_secrets_are_stored_hashed() {
    let secret = ServerSecret::new("s");
    let dev = new_device_credential(&secret);
    assert!(dev.device_id.starts_with("dev_"));
    assert!(dev.key_plain.starts_with("dk_"));
    assert_eq!(dev.key_plain.len(), 3 + 64);
    assert_eq!(dev.key_hash, hash_api_token(&dev.key_plain, &secret));
    let svc = new_service(&secret);
    assert!(svc.id.starts_with("svc_"));
    assert_eq!(svc.client_id, svc.id);
    assert!(svc.secret.plain.starts_with("scs_"));
    assert_eq!(svc.secret.hash, hash_api_token(&svc.secret.plain, &secret));
    let tok = issue_token(&secret);
    assert!(tok.id.starts_with("tok_"));
    assert!(tok.plaintext.starts_with("th_live_"));
    assert_eq!(tok.prefix, "th_live_");
    assert_eq!(tok.hash, hash_api_token(&tok.plaintext, &secret));
}

#[test]
fn service_update_rewrites_scopes_when_either_list_is_given() {
    assert!(!rewrites_scopes(&UpdateServiceReq { scopes: None, ip_whitelist: None, status: Some("active".to_string()) }));
    assert!(rewrites_scopes(&UpdateServiceReq { scopes: None, ip_whitelist: Some(vec![]), status: None }));
    assert!(rewrites_scopes(&UpdateServiceReq { scopes: Some(vec![]), ip_whitelist: None, status: None }));
}

#[test]
fn token_listing_masks_hashes() {
    assert_eq!(mask_hash("0123456789abcdef"), "01234567…");
    assert_eq!(mask_hash("abc"), "abc…");
    let t = ApiToken {
        id: "tok_1".to_string(),
        token_hash: "ffffffff00000000".to_string(),
        prefix: "th_live_".to_string(),
        account_id: "acct_1".to_string(),
        name: Some("ci".to_string()),
        status: TokenStatus::Revoked,
        expires_at: None,
        created_at: 5,
        revoked_at: Some(6),
    };
    let item = token_list_item(t);
    assert_eq!(item.token_hash, "ffffffff…");
    assert_eq!(item.status, "revoked");
    assert_eq!(item.revoked_at, Some(6));
    assert_eq!(token_account(None).unwrap_err(), bad_request("account not found"));
}

#[test]
fn provider_views_and_quota() {
    let p = ProviderCredential {
        id: "prov_1".to_string(),
        name: "OpenAI".to_string(),
        provider_type: "openai".to_string(),
        base_url: "https://api.openai.com".to_string(),
        api_key_enc: "sk-secret".to_string(),
        status: ProviderStatus::Active,
        disabled_reason: None,
        disabled_at: None,
        quota_limit: Some(1000),
        quota_used: 10,
        quota_threshold: 80,
        quota_alert_sent: false,
        quota_synced_at: None,
        created_at: 1,
        updated_at: 2,
    };
    let m = mask_provider(&p);
    assert_eq!(m.api_key, "****");
    assert_eq!(m.base_url, p.base_url);
    assert_eq!(m.quota_limit, Some(1000));
    assert_eq!(default_threshold(), 80);
    assert_eq!(quota_percentage(850, Some(1000)), 85);
    assert_eq!(quota_percentage(850, Some(0)), 0);
    assert_eq!(quota_percentage(850, None), 0);
    assert_eq!(status_name(ProviderStatus::Disabled), "disabled");
    let q = quota_or_default(None);
    assert_eq!((q.used, q.limit, q.threshold, q.alert_sent), (0, None, 80, false));
}

#[test]
fn reports_and_pages() {
    assert_eq!(report_period(Some("202401".to_string())), "202401");
    assert_eq!(report_period(None).len() >= 6, true);
    assert_eq!(log_page(None, None), (50, 0));
    assert_eq!(log_page(Some(5), Some(10)), (5, 10));
    let row = |id: &str, credits: i64, calls: i64| AccountUsageRow {
        account_id: id.to_string(),
        external_id: None,
        prompt_tokens: 1,
        completion_tokens: 1,
        credits,
        calls,
    };
    let report = usage_report(vec![row("a", 10, 2), row("b", 99, 0), row("c", 5, 1)]);
    assert_eq!(report.total_credits, 15);
    assert_eq!(report.total_calls, 3);
    let ids: Vec<_> = report.by_account.iter().map(|r| r.account_id.as_str()).collect();
    assert_eq!(ids, vec!["a", "c"]);
}

#[test]
fn tunnel_toggle_rules() {
    assert_eq!(
        toggle_plan(false, false),
        Err(ApiError::BadRequest("tun 通道未配置（FRP_SERVER 未设置）".to_string()))
    );
    assert_eq!(toggle_plan(true, true), Ok(TunToggle::Close));
    assert_eq!(toggle_plan(true, false), Ok(TunToggle::Open));
    assert_eq!(open_audit_detail(Some("a3k9x2")), "{\"service_id\":\"a3k9x2\"}");
    assert_eq!(open_audit_detail(None), "{\"service_id\":\"\"}");
    assert_eq!(toggle_failure("spawn failed".to_string()), ApiError::Internal("spawn failed".to_string()));
}

#[test]
fn report_period_defaults_to_the_current_month() {
    assert_eq!(report_period_from(None, "202405".to_string()), "202405");
    assert_eq!(report_period_from(Some("202401".to_string()), "202405".to_string()), "202401");
    let p = report_period(None);
    assert!(p.len() >= 6);
    let month: u32 = p[p.len() - 2..].parse().unwrap();
    assert!((1..=12).contains(&month));
}
