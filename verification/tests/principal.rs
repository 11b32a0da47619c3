use token_hub::domain::principal::{Principal, PrincipalKind, Scope};

#[test]
fn scope_roundtrip() {
    for s in [Scope::AdminRead, Scope::CreditsAdmin, Scope::AuditRead, Scope::ProvidersWrite] {
        assert_eq!(Scope::from_str_lossy(s.as_str()), Some(s));
    }
    assert!(Scope::from_str_lossy("unknown").is_none());
}

#[test]
fn every_scope_name_roundtrips() {
    let all = [
        Scope::AdminRead, Scope::AdminWrite, Scope::AccountsRead, Scope::AccountsWrite,
        Scope::TokensRead, Scope::TokensWrite, Scope::CreditsRead, Scope::CreditsWrite,
        Scope::CreditsAdmin, Scope::ModelsRead, Scope::ModelsWrite, Scope::ProvidersRead,
        Scope::ProvidersWrite, Scope::ServicesRead, Scope::ServicesWrite, Scope::PoliciesRead,
        Scope::PoliciesWrite, Scope::ReportsRead, Scope::AuditRead,
    ];
    for s in all {
        assert_eq!(Scope::from_str_lossy(s.as_str()), Some(s));
    }
    assert_eq!(Scope::CreditsAdmin.as_str(), "credits.admin");
}

#[test]
fn super_admin_needs_admin_kind_and_admin_write() {
    let admin = Principal {
        kind: PrincipalKind::Admin,
        id: "adm_1".to_string(),
        account_id: None,
        scopes: vec![Scope::AdminWrite],
    };
    assert!(admin.is_super_admin());
    assert!(admin.has_scope(Scope::AdminWrite));
    assert!(!admin.has_scope(Scope::AdminRead));
    let service = Principal { kind: PrincipalKind::Service, ..admin.clone() };
    assert!(!service.is_super_admin());
}
