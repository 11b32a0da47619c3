//! The server secret (HMAC key for API/session tokens and JWT signing), and
//! HMAC-SHA256 under it.

use vstd::prelude::*;

verus! {

/// The server secret, loaded from configuration and shared in-process.
#[derive(Clone)]
pub struct ServerSecret(pub Vec<u8>);

impl ServerSecret {
    /// The secret made of the UTF-8 bytes of `secret`.
    pub fn new(secret: &str) -> (r: Self)
        ensures
            r.0@ == vstd::utf8::encode_utf8(secret@),
    {
        ServerSecret(vstd::slice::slice_to_vec(secret.as_bytes()))
    }

    /// The key bytes.
    pub fn as_bytes(&self) -> (r: &[u8])
        ensures
            r@ == self.0@,
    {
        self.0.as_slice()
    }
}

/// HMAC-SHA256 of `msg` under `key`, as computed by the hmac and sha2
/// crates (a function of its two arguments).
pub uninterp spec fn hmac_sha256(key: Seq<u8>, msg: Seq<u8>) -> Seq<u8>;

/// hmac's `Hmac::<Sha256>::new_from_slice(key)`, `update(msg)`,
/// `finalize().into_bytes()`. HMAC takes keys of any length, so building the
/// MAC cannot fail. Claimed: the result is the named HMAC of the two
/// arguments, and it is 32 bytes long (SHA-256's output size).
#[verifier::external_body]
pub(crate) fn hmac_sha256_bytes(key: &[u8], msg: &[u8]) -> (r: Vec<u8>)
    ensures
        r@ == hmac_sha256(key@, msg@),
        r@.len() == 32,
{
    let mut mac = <hmac::Hmac<sha2::Sha256> as hmac::Mac>::new_from_slice(key)
        .expect("HMAC accepts any key length");
    hmac::Mac::update(&mut mac, msg);
    hmac::Mac::finalize(mac).into_bytes().to_vec()
}

} // verus!
