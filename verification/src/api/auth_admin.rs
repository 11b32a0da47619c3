//! Admin-side authentication and scope gates.
//!
//! A bearer credential on the admin API is either a service JWT (whose
//! decoded claims become a service principal) or a stateful admin session
//! token (looked up by its keyed hash, then its admin). The lookups and the
//! JWT decoding are the caller's; these functions decide what the results
//! mean.

use vstd::prelude::*;
use crate::api::error::{ApiError, unauthorized};
use crate::auth::jwt::ServiceClaims;
use crate::domain::principal::{Principal, PrincipalKind, Scope, scope_from_name};
use crate::text::{str_eq, string_views};

verus! {

/// An authenticated admin or service principal.
pub struct RequireAdmin(pub Principal);

/// A principal that was checked to hold a scope.
pub struct RequireScoped {
    pub principal: Principal,
    pub scope: Scope,
}

/// Whether a principal is a super administrator: an admin holding `admin.write`.
pub open spec fn super_admin(p: Principal) -> bool {
    p.kind == PrincipalKind::Admin && p.scopes@.contains(Scope::AdminWrite)
}

/// Whether a principal may use an endpoint guarded by `scope`: it holds the
/// scope, or it is a super administrator.
pub open spec fn scope_granted(p: Principal, scope: Scope) -> bool {
    p.scopes@.contains(scope) || super_admin(p)
}

impl RequireScoped {
    /// Admits `principal` for `scope`, or answers `Forbidden`.
    pub fn check(principal: Principal, scope: Scope) -> (r: Result<Self, ApiError>)
        ensures
            scope_granted(principal, scope) ==> (r matches Ok(g) && g.principal == principal && g.scope == scope),
            !scope_granted(principal, scope) ==> r == Err::<Self, ApiError>(ApiError::Forbidden),
    {
        if principal.has_scope(scope) || principal.is_super_admin() {
            Ok(RequireScoped { principal, scope })
        } else {
            Err(ApiError::Forbidden)
        }
    }
}

/// The scope gate of an admin endpoint: `Ok` when the principal holds the
/// scope or is a super administrator, `Forbidden` otherwise.
pub fn require_scope(principal: &Principal, scope: Scope) -> (r: Result<(), ApiError>)
    ensures
        r is Ok <==> scope_granted(*principal, scope),
        r is Err ==> r == Err::<(), ApiError>(ApiError::Forbidden),
{
    if principal.has_scope(scope) || principal.is_super_admin() {
        Ok(())
    } else {
        Err(ApiError::Forbidden)
    }
}

/// The check of the super-administrator-only endpoints: `Ok` for a super
/// administrator, `Forbidden` otherwise.
pub fn require_super_admin(principal: &Principal) -> (r: Result<(), ApiError>)
    ensures
        r is Ok <==> super_admin(*principal),
        r is Err ==> r == Err::<(), ApiError>(ApiError::Forbidden),
{
    if principal.is_super_admin() {
        Ok(())
    } else {
        Err(ApiError::Forbidden)
    }
}

/// The scopes named by `names`, in order, unknown names dropped.
pub open spec fn known_scopes(names: Seq<Seq<char>>) -> Seq<Scope>
    decreases names.len(),
{
    if names.len() == 0 {
        Seq::empty()
    } else {
        let rest = known_scopes(names.drop_last());
        match scope_from_name(names.last()) {
            Some(s) => rest.push(s),
            None => rest,
        }
    }
}

/// The principal of a verified service JWT: a service whose id is the
/// issuer, with no account and the claimed scopes that name a known scope.
pub fn service_principal(claims: &ServiceClaims) -> (r: Principal)
    ensures
        r.kind == PrincipalKind::Service,
        r.id@ == claims.iss@,
        r.account_id is None,
        r.scopes@ == known_scopes(string_views(claims.scope@)),
{
    let mut scopes: Vec<Scope> = Vec::new();
    let mut i: usize = 0;
    while i < claims.scope.len()
        invariant
            i <= claims.scope@.len(),
            scopes@ == known_scopes(string_views(claims.scope@.take(i as int))),
        decreases claims.scope@.len() - i,
    {
        proof {
            assert(string_views(claims.scope@.take(i as int + 1)).drop_last()
                =~= string_views(claims.scope@.take(i as int)));
            assert(string_views(claims.scope@.take(i as int + 1)).last() == claims.scope@[i as int]@);
        }
        match Scope::from_str_lossy(claims.scope[i].as_str()) {
            Some(s) => scopes.push(s),
            None => {},
        }
        i = i + 1;
    }
    proof {
        assert(claims.scope@.take(claims.scope@.len() as int) =~= claims.scope@);
    }
    Principal {
        kind: PrincipalKind::Service,
        id: claims.iss.clone(),
        account_id: None,
        scopes,
    }
}

/// A stored admin access token, as found by its keyed hash.
#[derive(Debug, Clone)]
pub struct AdminAccessToken {
    pub admin_id: String,
    /// Expiry (Unix seconds).
    pub expires_at: i64,
    pub revoked: bool,
}

/// A stored administrator.
#[derive(Debug, Clone)]
pub struct AdminUser {
    pub id: String,
    pub phone: String,
    /// Argon2id PHC string of the password.
    pub password_hash: String,
    /// Base32 TOTP secret.
    pub totp_secret: String,
    pub roles: Vec<String>,
    pub status: String,
}

/// Accepts the access token found for a bearer credential at `now` (Unix
/// seconds) and gives the admin id it belongs to: unknown, revoked and
/// expired tokens are refused, in that order.
pub fn accept_access_token(found: Option<AdminAccessToken>, now: i64) -> (r: Result<String, ApiError>)
    ensures
        match found {
            None => r matches Err(ApiError::Unauthorized(m)) && m@ == "invalid admin token"@,
            Some(t) => if t.revoked {
                r matches Err(ApiError::Unauthorized(m)) && m@ == "token revoked"@
            } else if t.expires_at < now {
                r matches Err(ApiError::Unauthorized(m)) && m@ == "token expired"@
            } else {
                r matches Ok(id) && id@ == t.admin_id@
            },
        },
{
    match found {
        None => Err(unauthorized("invalid admin token")),
        Some(t) => {
            if t.revoked {
                Err(unauthorized("token revoked"))
            } else if t.expires_at < now {
                Err(unauthorized("token expired"))
            } else {
                Ok(t.admin_id)
            }
        },
    }
}

/// Every scope, in declaration order: what a super administrator holds.
pub open spec fn all_scopes() -> Seq<Scope> {
    seq![
        Scope::AdminRead, Scope::AdminWrite, Scope::AccountsRead, Scope::AccountsWrite,
        Scope::TokensRead, Scope::TokensWrite, Scope::CreditsRead, Scope::CreditsWrite,
        Scope::CreditsAdmin, Scope::ModelsRead, Scope::ModelsWrite, Scope::ProvidersRead,
        Scope::ProvidersWrite, Scope::ServicesRead, Scope::ServicesWrite, Scope::PoliciesRead,
        Scope::PoliciesWrite, Scope::ReportsRead, Scope::AuditRead,
    ]
}

/// The read scopes a read-only administrator holds.
pub open spec fn read_only_scopes() -> Seq<Scope> {
    seq![
        Scope::AdminRead, Scope::AccountsRead, Scope::TokensRead, Scope::CreditsRead,
        Scope::ModelsRead, Scope::ProvidersRead, Scope::ReportsRead, Scope::AuditRead,
    ]
}

/// Whether a role list makes a super administrator: it holds `admin.write`
/// or `super_admin`.
pub open spec fn has_super_role(roles: Seq<Seq<char>>) -> bool {
    exists|i: int| 0 <= i < roles.len() && (roles[i] == "admin.write"@ || roles[i] == "super_admin"@)
}

fn push_all_scopes(v: &mut Vec<Scope>)
    requires
        old(v)@.len() == 0,
    ensures
        final(v)@ == all_scopes(),
{
    v.push(Scope::AdminRead);
    v.push(Scope::AdminWrite);
    v.push(Scope::AccountsRead);
    v.push(Scope::AccountsWrite);
    v.push(Scope::TokensRead);
    v.push(Scope::TokensWrite);
    v.push(Scope::CreditsRead);
    v.push(Scope::CreditsWrite);
    v.push(Scope::CreditsAdmin);
    v.push(Scope::ModelsRead);
    v.push(Scope::ModelsWrite);
    v.push(Scope::ProvidersRead);
    v.push(Scope::ProvidersWrite);
    v.push(Scope::ServicesRead);
    v.push(Scope::ServicesWrite);
    v.push(Scope::PoliciesRead);
    v.push(Scope::PoliciesWrite);
    v.push(Scope::ReportsRead);
    v.push(Scope::AuditRead);
    assert(v@ =~= all_scopes());
}

fn push_read_only_scopes(v: &mut Vec<Scope>)
    requires
        old(v)@.len() == 0,
    ensures
        final(v)@ == read_only_scopes(),
{
    v.push(Scope::AdminRead);
    v.push(Scope::AccountsRead);
    v.push(Scope::TokensRead);
    v.push(Scope::CreditsRead);
    v.push(Scope::ModelsRead);
    v.push(Scope::ProvidersRead);
    v.push(Scope::ReportsRead);
    v.push(Scope::AuditRead);
    assert(v@ =~= read_only_scopes());
}

/// The scopes of an administrator with these roles: all of them for a
/// super role (`admin.write` or `super_admin`), the read scopes otherwise.
pub fn admin_scopes(roles: &Vec<String>) -> (r: Vec<Scope>)
    ensures
        has_super_role(string_views(roles@)) ==> r@ == all_scopes(),
        !has_super_role(string_views(roles@)) ==> r@ == read_only_scopes(),
{
    let mut super_role = false;
    let mut i: usize = 0;
    while i < roles.len()
        invariant
            i <= roles@.len(),
            super_role <==> exists|j: int| 0 <= j < i
                && (#[trigger] roles@[j]@ == "admin.write"@ || roles@[j]@ == "super_admin"@),
        decreases roles@.len() - i,
    {
        if str_eq(roles[i].as_str(), "admin.write") || str_eq(roles[i].as_str(), "super_admin") {
            super_role = true;
        }
        i = i + 1;
    }
    proof {
        let sv = string_views(roles@);
        if super_role {
            let j = choose|j: int| 0 <= j < roles@.len()
                && (#[trigger] roles@[j]@ == "admin.write"@ || roles@[j]@ == "super_admin"@);
            assert(sv[j] == roles@[j]@);
        }
        if has_super_role(sv) {
            let j = choose|j: int| 0 <= j < sv.len() && (sv[j] == "admin.write"@ || sv[j] == "super_admin"@);
            assert(sv[j] == roles@[j]@);
        }
    }
    let mut scopes: Vec<Scope> = Vec::new();
    if super_role {
        push_all_scopes(&mut scopes);
    } else {
        push_read_only_scopes(&mut scopes);
    }
    scopes
}

/// The principal of the administrator an access token belongs to: unknown
/// and non-active administrators are refused; the scopes follow the roles.
pub fn admin_principal(found: Option<AdminUser>) -> (r: Result<Principal, ApiError>)
    ensures
        match found {
            None => r matches Err(ApiError::Unauthorized(m)) && m@ == "admin not found"@,
            Some(a) => if a.status@ != "active"@ {
                r matches Err(ApiError::Unauthorized(m)) && m@ == "admin disabled"@
            } else {
                r matches Ok(p) && p.kind == PrincipalKind::Admin && p.id@ == a.id@
                    && p.account_id is None
                    && (has_super_role(string_views(a.roles@)) ==> p.scopes@ == all_scopes())
                    && (!has_super_role(string_views(a.roles@)) ==> p.scopes@ == read_only_scopes())
            },
        },
{
    match found {
        None => Err(unauthorized("admin not found")),
        Some(a) => {
            if !str_eq(a.status.as_str(), "active") {
                Err(unauthorized("admin disabled"))
            } else {
                let scopes = admin_scopes(&a.roles);
                Ok(Principal { kind: PrincipalKind::Admin, id: a.id, account_id: None, scopes })
            }
        },
    }
}

/// An administrator with a super role is a super administrator, so every
/// scope gate admits it.
pub proof fn lemma_super_role_admits_everything(p: Principal, scope: Scope)
    requires
        p.kind == PrincipalKind::Admin,
        p.scopes@ == all_scopes(),
    ensures
        super_admin(p),
        scope_granted(p, scope),
{
    assert(all_scopes()[1] == Scope::AdminWrite);
}

/// A read-only administrator is no super administrator, and passes the
/// check of a scope precisely when that scope is one of the read scopes.
pub proof fn lemma_read_only_admin_gates(p: Principal, scope: Scope)
    requires
        p.kind == PrincipalKind::Admin,
        p.scopes@ == read_only_scopes(),
    ensures
        !super_admin(p),
        scope_granted(p, scope) <==> read_only_scopes().contains(scope),
{
    if read_only_scopes().contains(Scope::AdminWrite) {
        let i = choose|i: int| 0 <= i < read_only_scopes().len() && read_only_scopes()[i] == Scope::AdminWrite;
        assert(false);
    }
}

} // verus!
