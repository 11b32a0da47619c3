//! Service JWT claims (OAuth2 client credentials): iss = client id, iat,
//! exp, the scope strings, and the subject kind, which must be "service".
//! The claims are signed with HS256 under the server secret.

use vstd::prelude::*;
use crate::text::str_eq;

verus! {

/// The claims of a service JWT.
#[derive(Debug, Clone)]
pub struct ServiceClaims {
    /// The client id.
    pub iss: String,
    /// Issued at (Unix seconds).
    pub iat: i64,
    /// Expires at (Unix seconds).
    pub exp: i64,
    /// Scope strings.
    pub scope: Vec<String>,
    /// Subject kind, always "service".
    pub sub_kind: String,
}

/// JWT failures.
#[derive(Debug)]
pub enum JwtError {
    /// Signing failed (the encoder's message).
    Sign(String),
    /// Invalid, tampered or expired token.
    Invalid,
}

/// The claims of a service JWT issued at `now` for `ttl_secs` seconds.
pub fn new_service_claims(client_id: &str, scopes: &[String], ttl_secs: i64, now: i64) -> (r: ServiceClaims)
    requires
        i64::MIN <= now + ttl_secs <= i64::MAX,
    ensures
        r.iss@ == client_id@,
        r.iat == now,
        r.exp == now + ttl_secs,
        r.scope@.len() == scopes@.len(),
        forall|i: int| 0 <= i < scopes@.len() ==> #[trigger] r.scope@[i]@ == scopes@[i]@,
        r.sub_kind@ == "service"@,
{
    let mut scope: Vec<String> = Vec::new();
    let mut i: usize = 0;
    while i < scopes.len()
        invariant
            i <= scopes@.len(),
            scope@.len() == i,
            forall|j: int| 0 <= j < i ==> #[trigger] scope@[j]@ == scopes@[j]@,
        decreases scopes@.len() - i,
    {
        scope.push(scopes[i].clone());
        i = i + 1;
    }
    ServiceClaims {
        iss: String::from_str(client_id),
        iat: now,
        exp: now + ttl_secs,
        scope,
        sub_kind: String::from_str("service"),
    }
}

/// Accepts decoded claims (signature and expiry already checked, `None`
/// when decoding failed) only when their subject kind is "service".
pub fn accept_service_claims(decoded: Option<ServiceClaims>) -> (r: Result<ServiceClaims, JwtError>)
    ensures
        match decoded {
            Some(c) => if c.sub_kind@ == "service"@ { r == Ok::<ServiceClaims, JwtError>(c) } else { r matches Err(JwtError::Invalid) },
            None => r matches Err(JwtError::Invalid),
        },
{
    match decoded {
        Some(c) => {
            if str_eq(c.sub_kind.as_str(), "service") {
                Ok(c)
            } else {
                Err(JwtError::Invalid)
            }
        },
        None => Err(JwtError::Invalid),
    }
}

} // verus!
