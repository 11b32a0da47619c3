//! Admin session tokens: random plaintext, stored as a keyed hash (so they
//! can be revoked at once).

use vstd::prelude::*;
use crate::auth::secret::{hmac_sha256, hmac_sha256_bytes, ServerSecret};
use crate::encoding::{base64url, base64url_encode, hex_lower, hex_lower_string, lemma_base64url_len, lemma_base64url_alphabet, b64_alphabet};

verus! {

/// `n` bytes from rand's thread-local generator (`thread_rng().fill_bytes`).
/// Claimed: exactly `n` bytes come back; their values are left open.
#[verifier::external_body]
pub(crate) fn random_bytes(n: usize) -> (r: Vec<u8>)
    ensures
        r@.len() == n,
{
    let mut v = vec![0u8; n];
    rand::RngCore::fill_bytes(&mut rand::thread_rng(), &mut v);
    v
}

/// Number of random bytes in a session token.
pub const SESSION_TOKEN_BYTES: usize = 48;

/// A new access/refresh token: 48 random bytes in unpadded base64url, so 64
/// URL-safe characters.
pub fn generate_session_token() -> (r: String)
    ensures
        r@.len() == 64,
        exists|b: Seq<u8>| b.len() == SESSION_TOKEN_BYTES && r@ == base64url(b),
        forall|i: int| 0 <= i < r@.len() ==> b64_alphabet().contains(#[trigger] r@[i]),
{
    let bytes = random_bytes(SESSION_TOKEN_BYTES);
    let r = base64url_encode(bytes.as_slice());
    proof {
        lemma_base64url_len(bytes@);
        lemma_base64url_alphabet(bytes@);
    }
    r
}

/// The stored hash of a token: lower-case hex of HMAC-SHA256 under the
/// server secret of the token's UTF-8 bytes.
pub open spec fn keyed_hash(token: Seq<char>, secret: Seq<u8>) -> Seq<char> {
    hex_lower(hmac_sha256(secret, vstd::utf8::encode_utf8(token)))
}

/// The HMAC-SHA256 hex hash of a session token (the database key): the
/// same `keyed_hash` that `hash_api_token` gives for the same text, so
/// equal inputs give equal hashes.
pub fn hash_session_token(token: &str, secret: &ServerSecret) -> (r: String)
    ensures
        r@ == keyed_hash(token@, secret.0@),
        r@.len() == 64,
        forall|i: int| 0 <= i < r@.len() ==> crate::encoding::lower_hex_char(#[trigger] r@[i]),
{
    let mac = hmac_sha256_bytes(secret.as_bytes(), token.as_bytes());
    let r = hex_lower_string(mac.as_slice());
    proof {
        crate::encoding::lemma_hex_lower_digits(mac@);
        crate::encoding::lemma_hex_lower_len(mac@);
    }
    r
}

} // verus!
