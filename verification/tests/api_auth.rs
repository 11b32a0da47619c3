use token_hub::api::auth_admin::{
    accept_access_token, admin_principal, admin_scopes, require_scope, require_super_admin, service_principal,
    AdminAccessToken, AdminUser, RequireScoped,
};
use token_hub::api::auth_chat::{cache_entry_for, extract_bearer, principal_from_cached, principal_from_token};
use token_hub::api::error::{bad_request, db_error, unauthorized};
use token_hub::api::ApiError;
use token_hub::auth::jwt::new_service_claims;
use token_hub::cache::token_cache::TokenInfo;
use token_hub::domain::principal::{Principal, PrincipalKind, Scope};
use token_hub::domain::token::{ApiToken, TokenStatus};

fn admin(status: &str, roles: &[&str]) -> AdminUser {
    AdminUser {
        id: "adm_1".to_string(),
        phone: "13800138000".to_string(),
        password_hash: "x".to_string(),
        totp_secret: "JBSWY3DPEHPK3PXP".to_string(),
        roles: roles.iter().map(|r| r.to_string()).collect(),
        status: status.to_string(),
    }
}

fn token(status: TokenStatus, expires_at: Option<i64>) -> ApiToken {
    ApiToken {
        id: "tok_1".to_string(),
        token_hash: "h".to_string(),
        prefix: "th_live_".to_string(),
        account_id: "acct_9".to_string(),
        name: None,
        status,
        expires_at,
        created_at: 0,
        revoked_at: None,
    }
}

#[test]
fn error_status_code_and_message() {
    let e = unauthorized("invalid token");
    assert_eq!(e.status(), 401);
    assert_eq!(e.code(), "unauthorized");
    assert_eq!(e.message(), "unauthorized: invalid token");
    assert_eq!(ApiError::Forbidden.status(), 403);
    assert_eq!(ApiError::Forbidden.message(), "forbidden: insufficient scope");
    assert_eq!(ApiError::InsufficientCredits.status(), 402);
    assert_eq!(ApiError::InsufficientCredits.code(), "insufficient_credits");
    assert_eq!(ApiError::NoProvider.status(), 503);
    assert_eq!(ApiError::NoProvider.message(), "no available model provider");
    assert_eq!(ApiError::Upstream("x".to_string()).status(), 502);
    assert_eq!(ApiError::Upstream("x".to_string()).code(), "upstream_error");
    assert_eq!(bad_request("b").message(), "bad request: b");
    assert_eq!(ApiError::NotFound.code(), "not_found");
    assert_eq!(db_error("locked").message(), "internal error: db error: locked");
    assert_eq!(db_error("locked").status(), 500);
}

#[test]
fn scope_gates() {
    let reader = Principal {
        kind: PrincipalKind::Service,
        id: "svc_1".to_string(),
        account_id: None,
        scopes: vec![Scope::CreditsRead],
    };
    assert!(require_scope(&reader, Scope::CreditsRead).is_ok());
    assert_eq!(require_scope(&reader, Scope::CreditsWrite), Err(ApiError::Forbidden));
    assert_eq!(require_super_admin(&reader), Err(ApiError::Forbidden));
    assert!(RequireScoped::check(reader.clone(), Scope::CreditsRead).is_ok());
    assert!(RequireScoped::check(reader, Scope::AuditRead).is_err());
}

#[test]
fn service_principal_keeps_known_scopes() {
    let claims = new_service_claims(
        "svc_1",
        &["accounts.read".to_string(), "bogus".to_string(), "credits.write".to_string()],
        3600,
        0,
    );
    let p = service_principal(&claims);
    assert_eq!(p.kind, PrincipalKind::Service);
    assert_eq!(p.id, "svc_1");
    assert_eq!(p.account_id, None);
    assert_eq!(p.scopes, vec![Scope::AccountsRead, Scope::CreditsWrite]);
}

#[test]
fn access_token_checks_in_order() {
    assert_eq!(accept_access_token(None, 10), Err(unauthorized("invalid admin token")));
    let revoked = AdminAccessToken { admin_id: "adm_1".to_string(), expires_at: 5, revoked: true };
    assert_eq!(accept_access_token(Some(revoked), 10), Err(unauthorized("token revoked")));
    let expired = AdminAccessToken { admin_id: "adm_1".to_string(), expires_at: 5, revoked: false };
    assert_eq!(accept_access_token(Some(expired), 10), Err(unauthorized("token expired")));
    let live = AdminAccessToken { admin_id: "adm_1".to_string(), expires_at: 10, revoked: false };
    assert_eq!(accept_access_token(Some(live), 10), Ok("adm_1".to_string()));
}

#[test]
fn admin_scopes_follow_roles() {
    assert_eq!(admin_scopes(&vec!["super_admin".to_string()]).len(), 19);
    assert_eq!(admin_scopes(&vec!["viewer".to_string(), "admin.write".to_string()]).len(), 19);
    let ro = admin_scopes(&vec!["viewer".to_string()]);
    assert_eq!(
        ro,
        vec![
            Scope::AdminRead, Scope::AccountsRead, Scope::TokensRead, Scope::CreditsRead,
            Scope::ModelsRead, Scope::ProvidersRead, Scope::ReportsRead, Scope::AuditRead,
        ]
    );
}

#[test]
fn admin_principal_refusals_and_super_admin() {
    assert_eq!(admin_principal(None).unwrap_err(), unauthorized("admin not found"));
    assert_eq!(admin_principal(Some(admin("disabled", &["super_admin"]))).unwrap_err(), unauthorized("admin disabled"));
    let p = admin_principal(Some(admin("active", &["super_admin"]))).unwrap();
    assert!(p.is_super_admin());
    assert!(require_scope(&p, Scope::PoliciesWrite).is_ok());
    let ro = admin_principal(Some(admin("active", &[]))).unwrap();
    assert!(!ro.is_super_admin());
    assert!(require_scope(&ro, Scope::ReportsRead).is_ok());
    assert!(require_scope(&ro, Scope::TokensWrite).is_err());
}

#[test]
fn bearer_extraction() {
    assert_eq!(extract_bearer(None), Err(unauthorized("missing authorization header")));
    assert_eq!(extract_bearer(Some("Bearer  abc ")), Ok("abc".to_string()));
    assert_eq!(extract_bearer(Some("bearer xyz")), Ok("xyz".to_string()));
    assert_eq!(extract_bearer(Some("Basic abc")), Err(unauthorized("invalid authorization scheme")));
    assert_eq!(extract_bearer(Some("Bearer")), Err(unauthorized("invalid authorization scheme")));
}

#[test]
fn api_user_from_cache_or_store() {
    let info = TokenInfo { account_id: "acct_9".to_string(), allowed_models: vec![], status: "active".to_string() };
    let p = principal_from_cached(&info).unwrap();
    assert_eq!(p.kind, PrincipalKind::ApiUser);
    assert_eq!(p.id, "acct_9");
    assert_eq!(p.account_id, Some("acct_9".to_string()));
    assert!(p.scopes.is_empty());
    let revoked = TokenInfo { status: "revoked".to_string(), ..info };
    assert_eq!(principal_from_cached(&revoked).unwrap_err(), unauthorized("token revoked"));

    assert_eq!(principal_from_token(None, 0).unwrap_err(), unauthorized("invalid token"));
    assert_eq!(principal_from_token(Some(token(TokenStatus::Revoked, None)), 0).unwrap_err(), unauthorized("token revoked"));
    assert_eq!(principal_from_token(Some(token(TokenStatus::Active, Some(99))), 100).unwrap_err(), unauthorized("token expired"));
    assert_eq!(principal_from_token(Some(token(TokenStatus::Active, Some(100))), 100).unwrap().id, "acct_9");
    assert_eq!(principal_from_token(Some(token(TokenStatus::Active, None)), i64::MAX).unwrap().id, "acct_9");

    let entry = cache_entry_for("acct_9");
    assert_eq!(entry.account_id, "acct_9");
    assert!(entry.allowed_models.is_empty());
    assert_eq!(entry.status, "active");
}

#[test]
fn api_users_pass_no_admin_gate() {
    let info = TokenInfo { account_id: "acct_9".to_string(), allowed_models: vec![], status: "active".to_string() };
    let p = principal_from_cached(&info).unwrap();
    for s in [Scope::AdminRead, Scope::AdminWrite, Scope::CreditsRead, Scope::AuditRead] {
        assert_eq!(require_scope(&p, s), Err(ApiError::Forbidden));
    }
    assert_eq!(require_super_admin(&p), Err(ApiError::Forbidden));
}
