//! Service accounts: create (the client secret is given once), update,
//! disable, and reset of the secret.

use vstd::prelude::*;
use crate::api::admin::{prefixed_id, uuid_shaped};
use crate::auth::secret::ServerSecret;
use crate::auth::session::{generate_session_token, keyed_hash};
use crate::auth::token_hmac::hash_api_token;
use crate::encoding::base64url;
use crate::text::append_str;

verus! {

/// Parameters of the service list.
#[derive(Debug, Clone)]
pub struct ListParams {
    pub limit: Option<i64>,
    pub offset: Option<i64>,
}

/// Body of a service creation.
#[derive(Debug, Clone)]
pub struct CreateServiceReq {
    pub name: String,
    pub scopes: Vec<String>,
    pub ip_whitelist: Option<Vec<String>>,
}

/// Body of a service update.
#[derive(Debug, Clone)]
pub struct UpdateServiceReq {
    pub scopes: Option<Vec<String>>,
    pub ip_whitelist: Option<Vec<String>>,
    pub status: Option<String>,
}

/// A client secret: the plaintext (given once) and its keyed hash (stored).
#[derive(Debug, Clone)]
pub struct ClientSecret {
    pub plain: String,
    pub hash: String,
}

/// A new client secret: `scs_` and a session token, stored under its keyed
/// hash.
pub fn new_client_secret(secret: &ServerSecret) -> (r: ClientSecret)
    ensures
        exists|b: Seq<u8>| b.len() == 48 && r.plain@ == "scs_"@ + base64url(b),
        r.hash@ == keyed_hash(r.plain@, secret.0@),
{
    let token = generate_session_token();
    let mut plain = String::new();
    append_str(&mut plain, "scs_");
    append_str(&mut plain, token.as_str());
    assert(plain@ =~= "scs_"@ + token@);
    let hash = hash_api_token(plain.as_str(), secret);
    ClientSecret { plain, hash }
}

/// A new service's identity: its id `svc_<uuid>` (also its client id) and
/// its client secret.
#[derive(Debug, Clone)]
pub struct NewService {
    pub id: String,
    pub client_id: String,
    pub secret: ClientSecret,
}

/// Issues the identity of a new service.
pub fn new_service(secret: &ServerSecret) -> (r: NewService)
    ensures
        exists|u: Seq<char>| uuid_shaped(u) && r.id@ == "svc_"@ + u,
        r.client_id@ == r.id@,
        exists|b: Seq<u8>| b.len() == 48 && r.secret.plain@ == "scs_"@ + base64url(b),
        r.secret.hash@ == keyed_hash(r.secret.plain@, secret.0@),
{
    let id = prefixed_id("svc_");
    let client_id = id.clone();
    let s = new_client_secret(secret);
    NewService { id, client_id, secret: s }
}

/// Whether an update rewrites the scopes and the address allow-list: when
/// it gives either (a missing scope list is then written as empty).
pub fn rewrites_scopes(req: &UpdateServiceReq) -> (r: bool)
    ensures
        r == (req.scopes is Some || req.ip_whitelist is Some),
{
    req.scopes.is_some() || req.ip_whitelist.is_some()
}

} // verus!
