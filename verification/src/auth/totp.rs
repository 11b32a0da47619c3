//! TOTP (RFC 6238, SHA-1, 6 digits, 30 s steps, one step of skew each way):
//! secrets, code checks and the otpauth binding URL.

use vstd::prelude::*;
use crate::text::{append_str, push_char};

verus! {

/// TOTP failures.
#[derive(Debug)]
pub enum TotpError {
    /// The secret is not valid unpadded RFC 4648 base32 (the parser's message).
    InvalidSecret(String),
    /// The code does not match.
    VerifyFailed,
}

/// The step of a TOTP code, in seconds.
pub const TOTP_STEP: u64 = 30;

/// The latest time (Unix seconds) at which a code can be checked: the step
/// after it must still start within `u64` (`u64::MAX - 2 * TOTP_STEP`).
pub const TOTP_MAX_TIME: u64 = 0xFFFF_FFFF_FFFF_FFC3;

/// Whether a code is six ASCII digits.
pub open spec fn six_digits(code: Seq<char>) -> bool {
    code.len() == 6 && forall|i: int| 0 <= i < 6 ==> '0' <= #[trigger] code[i] && code[i] <= '9'
}

/// The bytes that totp-rs decodes from a base32 secret (RFC 4648 alphabet,
/// no padding), or `None` when it is not valid base32.
pub uninterp spec fn totp_secret_bytes(secret: Seq<char>) -> Option<Seq<u8>>;

/// The 6-digit SHA-1 code that totp-rs computes for `key` at time step
/// `counter` (the HMAC of the counter, dynamically truncated).
pub uninterp spec fn totp_code(key: Seq<u8>, counter: u64) -> Seq<char>;

/// totp-rs's parse error, carried to its message.
#[verifier::external_type_specification]
#[verifier::external_body]
pub struct ExSecretParseError(totp_rs::SecretParseError);

/// totp-rs's `Secret::Encoded(secret).to_bytes()`. Claimed: `Ok` exactly
/// when the named decoding succeeds, with its bytes.
#[verifier::external_body]
fn decode_base32_secret(secret: &str) -> (r: Result<Vec<u8>, totp_rs::SecretParseError>)
    ensures
        r is Ok <==> totp_secret_bytes(secret@) is Some,
        r matches Ok(b) ==> totp_secret_bytes(secret@) == Some(b@),
{
    totp_rs::Secret::Encoded(secret.to_string()).to_bytes()
}

/// The message of a totp-rs secret parse error (its `Display`). Claimed:
/// the one message of its one variant.
#[verifier::external_body]
fn secret_parse_error_message(e: &totp_rs::SecretParseError) -> (r: String)
    ensures
        r@ == "Could not decode base32 secret."@,
{
    e.to_string()
}

/// totp-rs's `Secret::generate_secret().to_encoded()`: 20 random bytes in
/// unpadded base32. Claimed: the text decodes back to 20 bytes; the bytes
/// themselves are random.
#[verifier::external_body]
fn new_base32_secret() -> (r: String)
    ensures
        totp_secret_bytes(r@) is Some,
        totp_secret_bytes(r@)->0.len() == 20,
{
    totp_rs::Secret::generate_secret().to_encoded().to_string()
}

/// totp-rs's `TOTP::new_unchecked(SHA1, 6, 1, 30, key).generate(time)`.
/// Claimed: the code of time step `time / 30` (totp-rs signs `time / step`),
/// and it is six ASCII digits (totp-rs formats the truncated value modulo
/// 10^6, zero-padded to six places).
#[verifier::external_body]
fn totp_generate(key: &[u8], time: u64) -> (r: String)
    ensures
        r@ == totp_code(key@, time / TOTP_STEP),
        six_digits(r@),
{
    totp_rs::TOTP::new_unchecked(totp_rs::Algorithm::SHA1, 6, 1, 30, key.to_vec()).generate(time)
}

/// totp-rs's `TOTP::new_unchecked(SHA1, 6, 1, 30, key).check(code, time)`:
/// it compares `code` with the codes of steps `time/30 - 1`, `time/30` and
/// `time/30 + 1`. The first step is computed as `time/30 - 1`, which
/// underflows below 30 s, and the last step's start `(time/30 + 1) * 30`
/// overflows near the end of `u64`, so `30 <= time <= TOTP_MAX_TIME` is
/// required. Claimed: true exactly when one of the three codes equals `code`.
#[verifier::external_body]
fn totp_check(key: &[u8], code: &str, time: u64) -> (r: bool)
    requires
        TOTP_STEP <= time <= TOTP_MAX_TIME,
    ensures
        r == code_in_window(key@, code@, time),
{
    totp_rs::TOTP::new_unchecked(totp_rs::Algorithm::SHA1, 6, 1, 30, key.to_vec()).check(code, time)
}

/// Whether `code` is the code of the step before, of, or after `time`.
pub open spec fn code_in_window(key: Seq<u8>, code: Seq<char>, time: u64) -> bool {
    let step = time / TOTP_STEP;
    code == totp_code(key, (step - 1) as u64) || code == totp_code(key, step) || code == totp_code(key, (step + 1) as u64)
}

/// A new base32 TOTP secret (first binding or reset).
pub fn generate_totp_secret() -> (r: String)
    ensures
        totp_secret_bytes(r@) matches Some(b) && b.len() == 20,
{
    new_base32_secret()
}

/// A TOTP generator for one secret: SHA-1, 6 digits, 30 s step, skew 1.
pub struct Totp {
    key: Vec<u8>,
}

impl Totp {
    /// The secret key bytes.
    pub closed spec fn key(&self) -> Seq<u8> {
        self.key@
    }
}

fn decode_secret(secret: &str) -> (r: Result<Vec<u8>, TotpError>)
    ensures
        match totp_secret_bytes(secret@) {
            Some(b) => r matches Ok(v) && v@ == b,
            None => r matches Err(TotpError::InvalidSecret(m)) && m@ == "Could not decode base32 secret."@,
        },
{
    match decode_base32_secret(secret) {
        Ok(b) => Ok(b),
        Err(e) => Err(TotpError::InvalidSecret(secret_parse_error_message(&e))),
    }
}

/// Builds the generator for a base32 secret.
pub fn build_totp(secret: &str) -> (r: Result<Totp, TotpError>)
    ensures
        match totp_secret_bytes(secret@) {
            Some(b) => r matches Ok(t) && t.key() == b,
            None => r matches Err(TotpError::InvalidSecret(m)) && m@ == "Could not decode base32 secret."@,
        },
{
    match decode_secret(secret) {
        Ok(key) => Ok(Totp { key }),
        Err(e) => Err(e),
    }
}

/// Checks a code at time `now` (Unix seconds): accepted when it is the code
/// of the current step or of one step before or after. Past `TOTP_MAX_TIME`
/// the following step has no start time and every code is refused.
pub fn verify_totp_at(secret: &str, code: &str, now: u64) -> (r: Result<(), TotpError>)
    requires
        now >= TOTP_STEP,
    ensures
        match totp_secret_bytes(secret@) {
            Some(key) => if now <= TOTP_MAX_TIME && code_in_window(key, code@, now) {
                r is Ok
            } else {
                r matches Err(TotpError::VerifyFailed)
            },
            None => r matches Err(TotpError::InvalidSecret(m)) && m@ == "Could not decode base32 secret."@,
        },
{
    let totp = build_totp(secret)?;
    if now > TOTP_MAX_TIME {
        return Err(TotpError::VerifyFailed);
    }
    if totp_check(totp.key.as_slice(), code, now) {
        Ok(())
    } else {
        Err(TotpError::VerifyFailed)
    }
}

/// Checks a code against the current time. Before the first 30 s of the
/// epoch no window exists and the code is refused.
pub fn verify_totp(secret: &str, code: &str) -> (r: Result<(), TotpError>)
    ensures
        totp_secret_bytes(secret@) is None ==> (r matches Err(TotpError::InvalidSecret(m)) && m@ == "Could not decode base32 secret."@),
        totp_secret_bytes(secret@) is Some ==> (r is Ok || r matches Err(TotpError::VerifyFailed)),
        r is Ok ==> exists|now: u64| TOTP_STEP <= now <= TOTP_MAX_TIME && #[trigger] code_in_window(totp_secret_bytes(secret@)->0, code@, now),
{
    let now = crate::clock::unix_now_secs();
    let now: u64 = if now < 0 { 0 } else { now as u64 };
    if now < TOTP_STEP {
        let _ = build_totp(secret)?;
        return Err(TotpError::VerifyFailed);
    }
    verify_totp_at(secret, code, now)
}

/// The correct code of a secret at `time` (Unix seconds): six ASCII digits.
pub fn generate_at(secret: &str, time: u64) -> (r: Result<String, TotpError>)
    ensures
        match totp_secret_bytes(secret@) {
            Some(key) => r matches Ok(c) && c@ == totp_code(key, time / TOTP_STEP) && six_digits(c@),
            None => r matches Err(TotpError::InvalidSecret(m)) && m@ == "Could not decode base32 secret."@,
        },
{
    let totp = build_totp(secret)?;
    Ok(totp_generate(totp.key.as_slice(), time))
}

/// Whether Unicode calls `c` alphabetic or numeric (std's
/// `char::is_alphanumeric`).
pub uninterp spec fn unicode_alphanumeric(c: char) -> bool;

/// std's `char::is_alphanumeric`. Claimed: the named property.
#[verifier::external_body]
fn is_alphanumeric(c: char) -> (r: bool)
    ensures
        r == unicode_alphanumeric(c),
{
    c.is_alphanumeric()
}

/// Whether an ASCII character is a letter or a digit.
pub open spec fn ascii_alphanumeric(c: char) -> bool {
    ('a' <= c && c <= 'z') || ('A' <= c && c <= 'Z') || ('0' <= c && c <= '9')
}

/// The upper-case hex digit of `d` (0..16).
pub open spec fn hex_upper_digit(d: nat) -> char {
    "0123456789ABCDEF"@[d as int]
}

/// Upper-case hex digits of `n`, no leading zeros.
pub open spec fn hex_upper(n: nat) -> Seq<char>
    decreases n,
{
    if n < 16 {
        seq![hex_upper_digit(n)]
    } else {
        hex_upper(n / 16).push(hex_upper_digit(n % 16))
    }
}

/// Upper-case hex of `n`, zero-padded to at least two digits.
pub open spec fn hex_upper_min2(n: nat) -> Seq<char> {
    if n < 16 { seq!['0', hex_upper_digit(n)] } else { hex_upper(n) }
}

/// Whether a character is kept as is in a URL component: ASCII letters,
/// digits and `-_.~`, and beyond ASCII the characters Unicode calls
/// alphabetic or numeric.
pub open spec fn url_unreserved(c: char) -> bool {
    if (c as u32) < 128 {
        ascii_alphanumeric(c) || c == '-' || c == '_' || c == '.' || c == '~'
    } else {
        unicode_alphanumeric(c)
    }
}

/// Whether a character is kept as is in a URL component, deciding ASCII
/// characters directly.
fn is_url_unreserved(c: char) -> (r: bool)
    ensures
        r == url_unreserved(c),
{
    if (c as u32) < 128 {
        ('a' <= c && c <= 'z') || ('A' <= c && c <= 'Z') || ('0' <= c && c <= '9')
            || c == '-' || c == '_' || c == '.' || c == '~'
    } else {
        is_alphanumeric(c)
    }
}

/// The encoding of one character in a URL component.
pub open spec fn urlenc_char(c: char) -> Seq<char> {
    if c == ' ' { "%20"@ }
    else if c == ':' { "%3A"@ }
    else if c == '?' { "%3F"@ }
    else if c == '&' { "%26"@ }
    else if c == '=' { "%3D"@ }
    else if url_unreserved(c) { seq![c] }
    else { seq!['%'] + hex_upper_min2(c as nat) }
}

/// Percent-encoding of a URL component, character by character.
pub open spec fn urlenc_spec(s: Seq<char>) -> Seq<char>
    decreases s.len(),
{
    if s.len() == 0 {
        Seq::empty()
    } else {
        urlenc_spec(s.drop_last()) + urlenc_char(s.last())
    }
}

fn push_hex_upper(s: &mut String, n: u32)
    ensures
        final(s)@ == old(s)@ + hex_upper(n as nat),
    decreases n,
{
    let table = "0123456789ABCDEF";
    proof {
        reveal_strlit("0123456789ABCDEF");
    }
    if n < 16 {
        push_char(s, table.get_char(n as usize));
        assert(old(s)@.push(hex_upper_digit(n as nat)) =~= old(s)@ + hex_upper(n as nat));
    } else {
        push_hex_upper(s, n / 16);
        push_char(s, table.get_char((n % 16) as usize));
        assert(old(s)@ + hex_upper((n / 16) as nat) + seq![hex_upper_digit((n % 16) as nat)]
            =~= old(s)@ + hex_upper(n as nat));
    }
}

fn push_urlenc_char(s: &mut String, c: char)
    ensures
        final(s)@ == old(s)@ + urlenc_char(c),
{
    if c == ' ' {
        append_str(s, "%20");
    } else if c == ':' {
        append_str(s, "%3A");
    } else if c == '?' {
        append_str(s, "%3F");
    } else if c == '&' {
        append_str(s, "%26");
    } else if c == '=' {
        append_str(s, "%3D");
    } else if is_url_unreserved(c) {
        push_char(s, c);
        assert(old(s)@.push(c) =~= old(s)@ + seq![c]);
    } else {
        push_char(s, '%');
        let n = c as u32;
        if n < 16 {
            push_char(s, '0');
            push_hex_upper(s, n);
            assert(old(s)@.push('%').push('0') + hex_upper(n as nat) =~= old(s)@ + urlenc_char(c));
        } else {
            push_hex_upper(s, n);
            assert(old(s)@.push('%') + hex_upper(n as nat) =~= old(s)@ + urlenc_char(c));
        }
    }
}

/// Percent-encodes a URL component: space, `:`, `?`, `&` and `=` by their
/// codes, ASCII letters and digits, `-_.~` and the non-ASCII characters
/// Unicode calls alphabetic or numeric kept, every other
/// character as `%` and its code point in upper-case hex (at least two
/// digits).
pub fn urlenc(s: &str) -> (r: String)
    ensures
        r@ == urlenc_spec(s@),
{
    let mut out = String::new();
    let n = s.unicode_len();
    let mut i: usize = 0;
    while i < n
        invariant
            n == s@.len(),
            i <= n,
            out@ == urlenc_spec(s@.take(i as int)),
        decreases n - i,
    {
        let c = s.get_char(i);
        push_urlenc_char(&mut out, c);
        assert(s@.take(i as int + 1).drop_last() =~= s@.take(i as int));
        assert(s@.take(i as int + 1).last() == c);
        i = i + 1;
    }
    assert(s@.take(n as int) =~= s@);
    out
}

/// The otpauth binding URL (rendered as a QR code by the client).
pub open spec fn otpauth_url(secret: Seq<char>, issuer: Seq<char>, account: Seq<char>) -> Seq<char> {
    "otpauth://totp/"@ + urlenc_spec(issuer) + ":"@ + urlenc_spec(account) + "?secret="@ + secret
        + "&issuer="@ + urlenc_spec(issuer) + "&algorithm=SHA1&digits=6&period=30"@
}

/// Builds the otpauth URL for a secret, issuer and account. Always `Ok`.
pub fn totp_qrcode_datauri(secret: &str, issuer: &str, account: &str) -> (r: Result<String, TotpError>)
    ensures
        r matches Ok(u) && u@ == otpauth_url(secret@, issuer@, account@),
{
    let issuer_enc = urlenc(issuer);
    let account_enc = urlenc(account);
    let mut s = String::new();
    append_str(&mut s, "otpauth://totp/");
    assert(s@ =~= "otpauth://totp/"@);
    append_str(&mut s, issuer_enc.as_str());
    append_str(&mut s, ":");
    append_str(&mut s, account_enc.as_str());
    append_str(&mut s, "?secret=");
    append_str(&mut s, secret);
    append_str(&mut s, "&issuer=");
    append_str(&mut s, issuer_enc.as_str());
    append_str(&mut s, "&algorithm=SHA1&digits=6&period=30");
    Ok(s)
}

/// A code generated one step (30 s) earlier is still accepted: the skew of
/// one step each way tolerates clock drift.
pub proof fn lemma_previous_step_accepted(key: Seq<u8>, now: u64)
    requires
        now >= 2 * TOTP_STEP,
    ensures
        code_in_window(key, totp_code(key, ((now - TOTP_STEP) as u64) / TOTP_STEP), now),
        code_in_window(key, totp_code(key, now / TOTP_STEP), now),
{
    assert(((now - TOTP_STEP) as u64) / TOTP_STEP == ((now / TOTP_STEP) - 1) as u64);
}

/// Percent-encoding of an ASCII character: letters, digits and `-_.~`
/// are kept as they are; every other ASCII character is written as `%`
/// and the two upper-case hex digits of its code (so `+` becomes `%2B`,
/// `@` becomes `%40`, a space `%20`).
pub proof fn lemma_urlenc_ascii(c: char)
    requires
        (c as u32) < 128,
    ensures
        (c == '-' || c == '_' || c == '.' || c == '~' || ('a' <= c && c <= 'z') || ('A' <= c && c <= 'Z')
            || ('0' <= c && c <= '9')) ==> urlenc_char(c) == seq![c],
        !(c == '-' || c == '_' || c == '.' || c == '~' || ('a' <= c && c <= 'z') || ('A' <= c && c <= 'Z')
            || ('0' <= c && c <= '9')) ==> urlenc_char(c)
            == seq!['%', "0123456789ABCDEF"@[(c as int) / 16], "0123456789ABCDEF"@[(c as int) % 16]],
{
    reveal_strlit("0123456789ABCDEF");
    reveal_strlit("%20");
    reveal_strlit("%3A");
    reveal_strlit("%3F");
    reveal_strlit("%26");
    reveal_strlit("%3D");
    reveal_with_fuel(hex_upper, 2);
    let n = c as nat;
    if n >= 16 {
        assert(hex_upper(n / 16) == seq![hex_upper_digit(n / 16)]);
        assert(hex_upper(n) =~= seq![hex_upper_digit(n / 16), hex_upper_digit(n % 16)]);
    }
}

} // verus!
