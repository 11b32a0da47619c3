//! Device credentials (Console access in agent mode): register, list,
//! remove. The device key is given once; only its keyed hash is stored.

use vstd::prelude::*;
use crate::api::admin::{prefixed_id, uuid_shaped};
use crate::api::error::ApiError;
use crate::auth::secret::ServerSecret;
use crate::auth::session::{generate_session_token, keyed_hash};
use crate::auth::token_hmac::hash_api_token;
use crate::encoding::base64url;
use crate::text::append_str;

verus! {

/// Body of a device registration.
#[derive(Debug, Clone)]
pub struct RegisterDeviceReq {
    pub name: String,
    pub platform: Option<String>,
}

/// A newly registered device's credential.
#[derive(Debug, Clone)]
pub struct DeviceCredential {
    pub device_id: String,
    /// The device key, given once.
    pub key_plain: String,
    /// Its keyed hash, stored.
    pub key_hash: String,
}

/// Issues a device credential: id `dev_<uuid>`, key `dk_` and a session
/// token, stored under the key's keyed hash.
pub fn new_device_credential(secret: &ServerSecret) -> (r: DeviceCredential)
    ensures
        exists|u: Seq<char>| uuid_shaped(u) && r.device_id@ == "dev_"@ + u,
        exists|b: Seq<u8>| b.len() == 48 && r.key_plain@ == "dk_"@ + base64url(b),
        r.key_hash@ == keyed_hash(r.key_plain@, secret.0@),
{
    let device_id = prefixed_id("dev_");
    let token = generate_session_token();
    let mut key_plain = String::new();
    append_str(&mut key_plain, "dk_");
    append_str(&mut key_plain, token.as_str());
    assert(key_plain@ =~= "dk_"@ + token@);
    let key_hash = hash_api_token(key_plain.as_str(), secret);
    DeviceCredential { device_id, key_plain, key_hash }
}

/// A removal that deleted no row names no device.
pub fn removed_or_not_found(rows_affected: u64) -> (r: Result<(), ApiError>)
    ensures
        rows_affected > 0 ==> r is Ok,
        rows_affected == 0 ==> r == Err::<(), ApiError>(ApiError::NotFound),
{
    if rows_affected == 0 {
        Err(ApiError::NotFound)
    } else {
        Ok(())
    }
}

} // verus!
