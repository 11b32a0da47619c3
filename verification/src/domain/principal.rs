//! The unified identity: admins, services and API users all resolve to a
//! `Principal`, and admin-side access is decided by its scopes.

use vstd::prelude::*;
use crate::text::str_eq;

verus! {

/// Kind of principal.
#[derive(Debug, Clone, Copy, PartialEq, Eq, Structural)]
pub enum PrincipalKind {
    /// Administrator (TOTP login, stateful token).
    Admin,
    /// Service system (OAuth2 client credentials, JWT).
    Service,
    /// Application user (static API token).
    ApiUser,
}

/// Permission scope.
#[derive(Debug, Clone, Copy, PartialEq, Eq, Hash, Structural)]
pub enum Scope {
    AdminRead,
    AdminWrite,
    AccountsRead,
    AccountsWrite,
    TokensRead,
    TokensWrite,
    CreditsRead,
    CreditsWrite,
    CreditsAdmin,
    ModelsRead,
    ModelsWrite,
    ProvidersRead,
    ProvidersWrite,
    ServicesRead,
    ServicesWrite,
    PoliciesRead,
    PoliciesWrite,
    ReportsRead,
    AuditRead,
}

/// The wire name of a scope.
pub open spec fn scope_name(s: Scope) -> Seq<char> {
    match s {
        Scope::AdminRead => "admin.read"@,
        Scope::AdminWrite => "admin.write"@,
        Scope::AccountsRead => "accounts.read"@,
        Scope::AccountsWrite => "accounts.write"@,
        Scope::TokensRead => "tokens.read"@,
        Scope::TokensWrite => "tokens.write"@,
        Scope::CreditsRead => "credits.read"@,
        Scope::CreditsWrite => "credits.write"@,
        Scope::CreditsAdmin => "credits.admin"@,
        Scope::ModelsRead => "models.read"@,
        Scope::ModelsWrite => "models.write"@,
        Scope::ProvidersRead => "providers.read"@,
        Scope::ProvidersWrite => "providers.write"@,
        Scope::ServicesRead => "services.read"@,
        Scope::ServicesWrite => "services.write"@,
        Scope::PoliciesRead => "policies.read"@,
        Scope::PoliciesWrite => "policies.write"@,
        Scope::ReportsRead => "reports.read"@,
        Scope::AuditRead => "audit.read"@,
    }
}

/// The scope whose wire name is `n`, if any.
pub open spec fn scope_from_name(n: Seq<char>) -> Option<Scope> {
    if n == "admin.read"@ { Some(Scope::AdminRead) }
    else if n == "admin.write"@ { Some(Scope::AdminWrite) }
    else if n == "accounts.read"@ { Some(Scope::AccountsRead) }
    else if n == "accounts.write"@ { Some(Scope::AccountsWrite) }
    else if n == "tokens.read"@ { Some(Scope::TokensRead) }
    else if n == "tokens.write"@ { Some(Scope::TokensWrite) }
    else if n == "credits.read"@ { Some(Scope::CreditsRead) }
    else if n == "credits.write"@ { Some(Scope::CreditsWrite) }
    else if n == "credits.admin"@ { Some(Scope::CreditsAdmin) }
    else if n == "models.read"@ { Some(Scope::ModelsRead) }
    else if n == "models.write"@ { Some(Scope::ModelsWrite) }
    else if n == "providers.read"@ { Some(Scope::ProvidersRead) }
    else if n == "providers.write"@ { Some(Scope::ProvidersWrite) }
    else if n == "services.read"@ { Some(Scope::ServicesRead) }
    else if n == "services.write"@ { Some(Scope::ServicesWrite) }
    else if n == "policies.read"@ { Some(Scope::PoliciesRead) }
    else if n == "policies.write"@ { Some(Scope::PoliciesWrite) }
    else if n == "reports.read"@ { Some(Scope::ReportsRead) }
    else if n == "audit.read"@ { Some(Scope::AuditRead) }
    else { None }
}

impl Scope {
    /// The wire name of this scope.
    pub fn as_str(&self) -> (r: &'static str)
        ensures
            r@ == scope_name(*self),
    {
        match self {
            Scope::AdminRead => "admin.read",
            Scope::AdminWrite => "admin.write",
            Scope::AccountsRead => "accounts.read",
            Scope::AccountsWrite => "accounts.write",
            Scope::TokensRead => "tokens.read",
            Scope::TokensWrite => "tokens.write",
            Scope::CreditsRead => "credits.read",
            Scope::CreditsWrite => "credits.write",
            Scope::CreditsAdmin => "credits.admin",
            Scope::ModelsRead => "models.read",
            Scope::ModelsWrite => "models.write",
            Scope::ProvidersRead => "providers.read",
            Scope::ProvidersWrite => "providers.write",
            Scope::ServicesRead => "services.read",
            Scope::ServicesWrite => "services.write",
            Scope::PoliciesRead => "policies.read",
            Scope::PoliciesWrite => "policies.write",
            Scope::ReportsRead => "reports.read",
            Scope::AuditRead => "audit.read",
        }
    }

    /// Parses a wire name; an unknown name gives `None`.
    pub fn from_str_lossy(s: &str) -> (r: Option<Scope>)
        ensures
            r == scope_from_name(s@),
    {
        if str_eq(s, "admin.read") { Some(Scope::AdminRead) }
        else if str_eq(s, "admin.write") { Some(Scope::AdminWrite) }
        else if str_eq(s, "accounts.read") { Some(Scope::AccountsRead) }
        else if str_eq(s, "accounts.write") { Some(Scope::AccountsWrite) }
        else if str_eq(s, "tokens.read") { Some(Scope::TokensRead) }
        else if str_eq(s, "tokens.write") { Some(Scope::TokensWrite) }
        else if str_eq(s, "credits.read") { Some(Scope::CreditsRead) }
        else if str_eq(s, "credits.write") { Some(Scope::CreditsWrite) }
        else if str_eq(s, "credits.admin") { Some(Scope::CreditsAdmin) }
        else if str_eq(s, "models.read") { Some(Scope::ModelsRead) }
        else if str_eq(s, "models.write") { Some(Scope::ModelsWrite) }
        else if str_eq(s, "providers.read") { Some(Scope::ProvidersRead) }
        else if str_eq(s, "providers.write") { Some(Scope::ProvidersWrite) }
        else if str_eq(s, "services.read") { Some(Scope::ServicesRead) }
        else if str_eq(s, "services.write") { Some(Scope::ServicesWrite) }
        else if str_eq(s, "policies.read") { Some(Scope::PoliciesRead) }
        else if str_eq(s, "policies.write") { Some(Scope::PoliciesWrite) }
        else if str_eq(s, "reports.read") { Some(Scope::ReportsRead) }
        else if str_eq(s, "audit.read") { Some(Scope::AuditRead) }
        else { None }
    }
}

/// Length, first, second and last character of a name: enough to tell
/// any two scope names apart.
pub open spec fn name_signature(n: Seq<char>) -> (nat, char, char, char) {
    (n.len(), n[0], n[1], n[n.len() - 1])
}

/// Parsing the wire name of any scope gives that scope back, and no two
/// scopes share a wire name.
pub proof fn lemma_scope_name_roundtrip(s: Scope)
    ensures
        scope_from_name(scope_name(s)) == Some(s),
{
    reveal_strlit("admin.read");
    assert(name_signature("admin.read"@) == (10nat, 'a', 'd', 'd'));
    reveal_strlit("admin.write");
    assert(name_signature("admin.write"@) == (11nat, 'a', 'd', 'e'));
    reveal_strlit("accounts.read");
    assert(name_signature("accounts.read"@) == (13nat, 'a', 'c', 'd'));
    reveal_strlit("accounts.write");
    assert(name_signature("accounts.write"@) == (14nat, 'a', 'c', 'e'));
    reveal_strlit("tokens.read");
    assert(name_signature("tokens.read"@) == (11nat, 't', 'o', 'd'));
    reveal_strlit("tokens.write");
    assert(name_signature("tokens.write"@) == (12nat, 't', 'o', 'e'));
    reveal_strlit("credits.read");
    assert(name_signature("credits.read"@) == (12nat, 'c', 'r', 'd'));
    reveal_strlit("credits.write");
    assert(name_signature("credits.write"@) == (13nat, 'c', 'r', 'e'));
    reveal_strlit("credits.admin");
    assert(name_signature("credits.admin"@) == (13nat, 'c', 'r', 'n'));
    reveal_strlit("models.read");
    assert(name_signature("models.read"@) == (11nat, 'm', 'o', 'd'));
    reveal_strlit("models.write");
    assert(name_signature("models.write"@) == (12nat, 'm', 'o', 'e'));
    reveal_strlit("providers.read");
    assert(name_signature("providers.read"@) == (14nat, 'p', 'r', 'd'));
    reveal_strlit("providers.write");
    assert(name_signature("providers.write"@) == (15nat, 'p', 'r', 'e'));
    reveal_strlit("services.read");
    assert(name_signature("services.read"@) == (13nat, 's', 'e', 'd'));
    reveal_strlit("services.write");
    assert(name_signature("services.write"@) == (14nat, 's', 'e', 'e'));
    reveal_strlit("policies.read");
    assert(name_signature("policies.read"@) == (13nat, 'p', 'o', 'd'));
    reveal_strlit("policies.write");
    assert(name_signature("policies.write"@) == (14nat, 'p', 'o', 'e'));
    reveal_strlit("reports.read");
    assert(name_signature("reports.read"@) == (12nat, 'r', 'e', 'd'));
    reveal_strlit("audit.read");
    assert(name_signature("audit.read"@) == (10nat, 'a', 'u', 'd'));
}

/// Whether `w` is a non-empty word of lower-case ASCII letters.
pub open spec fn lower_word(w: Seq<char>) -> bool {
    w.len() > 0 && forall|i: int| 0 <= i < w.len() ==> 'a' <= #[trigger] w[i] && w[i] <= 'z'
}

/// Whether `n` reads `<resource>.<read|write|admin>` with a lower-case
/// resource word.
pub open spec fn scope_shaped(n: Seq<char>) -> bool {
    exists|res: Seq<char>, act: Seq<char>|
        #![trigger lower_word(res), act.len()]
        lower_word(res) && (act == "read"@ || act == "write"@ || act == "admin"@) && n == res + "."@ + act
}

proof fn lemma_shaped_name(res: Seq<char>, act: Seq<char>, n: Seq<char>)
    requires
        lower_word(res),
        act == "read"@ || act == "write"@ || act == "admin"@,
        n =~= res + "."@ + act,
    ensures
        scope_shaped(n),
{
    assert(lower_word(res) && act.len() == act.len());
}

/// Every scope's wire name is lower case and reads
/// `<resource>.<read|write|admin>`.
pub proof fn lemma_scope_name_shape(s: Scope)
    ensures
        scope_shaped(scope_name(s)),
{
    reveal_strlit(".");
    reveal_strlit("read");
    reveal_strlit("write");
    reveal_strlit("admin");
    match s {
        Scope::AdminRead => {
            reveal_strlit("admin.read");
            reveal_strlit("admin");
            lemma_shaped_name("admin"@, "read"@, "admin.read"@);
        },
        Scope::AdminWrite => {
            reveal_strlit("admin.write");
            reveal_strlit("admin");
            lemma_shaped_name("admin"@, "write"@, "admin.write"@);
        },
        Scope::AccountsRead => {
            reveal_strlit("accounts.read");
            reveal_strlit("accounts");
            lemma_shaped_name("accounts"@, "read"@, "accounts.read"@);
        },
        Scope::AccountsWrite => {
            reveal_strlit("accounts.write");
            reveal_strlit("accounts");
            lemma_shaped_name("accounts"@, "write"@, "accounts.write"@);
        },
        Scope::TokensRead => {
            reveal_strlit("tokens.read");
            reveal_strlit("tokens");
            lemma_shaped_name("tokens"@, "read"@, "tokens.read"@);
        },
        Scope::TokensWrite => {
            reveal_strlit("tokens.write");
            reveal_strlit("tokens");
            lemma_shaped_name("tokens"@, "write"@, "tokens.write"@);
        },
        Scope::CreditsRead => {
            reveal_strlit("credits.read");
            reveal_strlit("credits");
            lemma_shaped_name("credits"@, "read"@, "credits.read"@);
        },
        Scope::CreditsWrite => {
            reveal_strlit("credits.write");
            reveal_strlit("credits");
            lemma_shaped_name("credits"@, "write"@, "credits.write"@);
        },
        Scope::CreditsAdmin => {
            reveal_strlit("credits.admin");
            reveal_strlit("credits");
            lemma_shaped_name("credits"@, "admin"@, "credits.admin"@);
        },
        Scope::ModelsRead => {
            reveal_strlit("models.read");
            reveal_strlit("models");
            lemma_shaped_name("models"@, "read"@, "models.read"@);
        },
        Scope::ModelsWrite => {
            reveal_strlit("models.write");
            reveal_strlit("models");
            lemma_shaped_name("models"@, "write"@, "models.write"@);
        },
        Scope::ProvidersRead => {
            reveal_strlit("providers.read");
            reveal_strlit("providers");
            lemma_shaped_name("providers"@, "read"@, "providers.read"@);
        },
        Scope::ProvidersWrite => {
            reveal_strlit("providers.write");
            reveal_strlit("providers");
            lemma_shaped_name("providers"@, "write"@, "providers.write"@);
        },
        Scope::ServicesRead => {
            reveal_strlit("services.read");
            reveal_strlit("services");
            lemma_shaped_name("services"@, "read"@, "services.read"@);
        },
        Scope::ServicesWrite => {
            reveal_strlit("services.write");
            reveal_strlit("services");
            lemma_shaped_name("services"@, "write"@, "services.write"@);
        },
        Scope::PoliciesRead => {
            reveal_strlit("policies.read");
            reveal_strlit("policies");
            lemma_shaped_name("policies"@, "read"@, "policies.read"@);
        },
        Scope::PoliciesWrite => {
            reveal_strlit("policies.write");
            reveal_strlit("policies");
            lemma_shaped_name("policies"@, "write"@, "policies.write"@);
        },
        Scope::ReportsRead => {
            reveal_strlit("reports.read");
            reveal_strlit("reports");
            lemma_shaped_name("reports"@, "read"@, "reports.read"@);
        },
        Scope::AuditRead => {
            reveal_strlit("audit.read");
            reveal_strlit("audit");
            lemma_shaped_name("audit"@, "read"@, "audit.read"@);
        },
    }
}

/// A name that parses to a scope is exactly that scope's wire name.
pub proof fn lemma_scope_from_name_sound(n: Seq<char>)
    ensures
        scope_from_name(n) matches Some(s) ==> scope_name(s) == n,
{
}

/// The unified principal; every request resolves to one before the
/// business layer decides by kind and scopes.
#[derive(Debug, Clone)]
pub struct Principal {
    pub kind: PrincipalKind,
    /// Admin id / service client id / API user account id.
    pub id: String,
    /// Only for API users: their account id.
    pub account_id: Option<String>,
    /// Scopes of an admin or service.
    pub scopes: Vec<Scope>,
}

impl Principal {
    /// Whether `scope` is among the principal's scopes.
    pub fn has_scope(&self, scope: Scope) -> (r: bool)
        ensures
            r == self.scopes@.contains(scope),
    {
        let mut i: usize = 0;
        while i < self.scopes.len()
            invariant
                i <= self.scopes@.len(),
                forall|j: int| 0 <= j < i ==> self.scopes@[j] != scope,
            decreases self.scopes@.len() - i,
        {
            if self.scopes[i] == scope {
                assert(self.scopes@[i as int] == scope);
                return true;
            }
            i = i + 1;
        }
        false
    }

    /// A super administrator: an admin holding `admin.write`.
    pub fn is_super_admin(&self) -> (r: bool)
        ensures
            r == (self.kind == PrincipalKind::Admin && self.scopes@.contains(Scope::AdminWrite)),
    {
        self.kind == PrincipalKind::Admin && self.has_scope(Scope::AdminWrite)
    }
}

} // verus!
