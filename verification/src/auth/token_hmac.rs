//! API tokens: plaintext generation and the keyed hash stored for lookup
//! (the plaintext is never stored).

use vstd::prelude::*;
use crate::auth::secret::{hmac_sha256_bytes, ServerSecret};
use crate::auth::session::{random_bytes, keyed_hash};
use crate::domain::token::TOKEN_PREFIX_LITERAL;
use crate::encoding::{hex_lower, push_hex_lower, lemma_hex_lower_len, hex_lower_string};
use crate::text::append_str;

verus! {

/// A new API token: `th_live_` followed by the hex of 32 random bytes.
pub fn generate_api_token() -> (r: String)
    ensures
        exists|b: Seq<u8>| b.len() == 32 && r@ == "th_live_"@ + hex_lower(b),
        r@.len() == 72,
        r@.take(8) == "th_live_"@,
{
    let bytes = random_bytes(32);
    let mut s = String::new();
    append_str(&mut s, TOKEN_PREFIX_LITERAL);
    push_hex_lower(&mut s, bytes.as_slice());
    proof {
        reveal_strlit("th_live_");
        lemma_hex_lower_len(bytes@);
        assert(Seq::<char>::empty() + "th_live_"@ =~= "th_live_"@);
        assert(s@.take(8) =~= "th_live_"@);
    }
    s
}

/// The HMAC-SHA256 hex hash of an API token (unique index and lookup key).
/// Keyed by the server secret, so a leaked table cannot be matched against
/// tokens directly.
pub fn hash_api_token(token: &str, secret: &ServerSecret) -> (r: String)
    ensures
        r@ == keyed_hash(token@, secret.0@),
        r@.len() == 64,
        forall|i: int| 0 <= i < r@.len() ==> crate::encoding::lower_hex_char(#[trigger] r@[i]),
{
    let mac = hmac_sha256_bytes(secret.as_bytes(), token.as_bytes());
    let r = hex_lower_string(mac.as_slice());
    proof {
        crate::encoding::lemma_hex_lower_digits(mac@);
        lemma_hex_lower_len(mac@);
    }
    r
}

} // verus!
