//! Rate limiting of both APIs: the chat API counts per bearer credential
//! (under a short hash, so no plaintext token reaches the cache), the admin
//! API per client address. A failing cache lets the request through.

use vstd::prelude::*;
use crate::api::error::{ApiError, too_many_requests};
use crate::cache::memory::{incr_result, after_incr};
use crate::cache::rate_cache::{RateLimiter, rate_key};
use crate::encoding::hex_digit;
use crate::text::{append_str, push_char, opt_str_view};

verus! {

/// Requests allowed per window on the chat API, per credential.
pub const CHAT_RATE_LIMIT: u32 = 60;
/// Requests allowed per window on the admin API, per address.
pub const ADMIN_RATE_LIMIT: u32 = 30;
/// The window of both limits, in seconds.
pub const RATE_WINDOW_SECS: u64 = 60;

/// The 64-bit hash that std's `DefaultHasher`, as built by
/// `DefaultHasher::new` (fixed keys, no per-process seed), gives a string
/// slice fed through `Hash`. Within one build of std it is a function of the
/// string alone; std leaves the algorithm open across releases.
pub uninterp spec fn default_str_hash(s: Seq<char>) -> u64;

/// Hashes a string slice with a `DefaultHasher::new()` hasher
/// (`BuildHasher::hash_one` on `BuildHasherDefault<DefaultHasher>`, which
/// feeds the value to a fresh `DefaultHasher::default()` and finishes it).
/// Claimed: the result is `default_str_hash` of the text.
#[verifier::external_body]
fn default_hash(s: &str) -> (r: u64)
    ensures
        r == default_str_hash(s@),
{
    std::hash::BuildHasher::hash_one(
        &std::hash::BuildHasherDefault::<std::collections::hash_map::DefaultHasher>::default(),
        s,
    )
}

/// The lowest `width` hex digits of `v`, most significant first, zero padded.
pub open spec fn hex_fixed(v: nat, width: nat) -> Seq<char>
    decreases width,
{
    if width == 0 {
        Seq::empty()
    } else {
        hex_fixed(v / 16, (width - 1) as nat).push(hex_digit((v % 16) as u8))
    }
}

fn push_hex_fixed(s: &mut String, v: u64, width: u32)
    ensures
        final(s)@ == old(s)@ + hex_fixed(v as nat, width as nat),
    decreases width,
{
    if width == 0 {
        assert(old(s)@ + hex_fixed(v as nat, 0) =~= old(s)@);
    } else {
        push_hex_fixed(s, v / 16, width - 1);
        let table = "0123456789abcdef";
        proof {
            reveal_strlit("0123456789abcdef");
        }
        let d = (v % 16) as usize;
        let ghost before = s@;
        push_char(s, table.get_char(d));
        assert(s@ =~= old(s)@ + hex_fixed(v as nat, width as nat));
    }
}

/// The rate-limit digest of a string: its `DefaultHasher` hash as 16
/// lower-case hex digits (`{:016x}`).
pub open spec fn short_hash_spec(s: Seq<char>) -> Seq<char> {
    hex_fixed(default_str_hash(s) as nat, 16)
}

/// The short digest used to key rate limits by credential; equal texts give
/// equal digests.
pub fn short_hash(s: &str) -> (r: String)
    ensures
        r@ == short_hash_spec(s@),
        r@.len() == 16,
{
    let h = default_hash(s);
    let mut out = String::new();
    push_hex_fixed(&mut out, h, 16);
    assert(out@ =~= short_hash_spec(s@));
    proof {
        lemma_hex_fixed_len(h as nat, 16);
    }
    out
}

/// `hex_fixed` has exactly `width` digits.
pub proof fn lemma_hex_fixed_len(v: nat, width: nat)
    ensures
        hex_fixed(v, width).len() == width,
    decreases width,
{
    if width > 0 {
        lemma_hex_fixed_len(v / 16, (width - 1) as nat);
    }
}

/// The chat rate-limit key of an `Authorization` header value (`None` when
/// missing or unreadable, counted as `anonymous`).
pub open spec fn chat_rate_key_spec(header: Option<Seq<char>>) -> Seq<char> {
    "token:"@ + short_hash_spec(
        match header {
            Some(h) => h,
            None => "anonymous"@,
        },
    )
}

/// The chat rate-limit key: `token:` and the short hash of the header value.
pub fn chat_rate_key(header: Option<&str>) -> (r: String)
    ensures
        r@ == chat_rate_key_spec(opt_str_view(header)),
{
    let source = match header {
        Some(h) => h,
        None => "anonymous",
    };
    let digest = short_hash(source);
    let mut k = String::new();
    append_str(&mut k, "token:");
    append_str(&mut k, digest.as_str());
    assert(k@ =~= chat_rate_key_spec(opt_str_view(header)));
    k
}

/// The text before the first comma (all of it when there is none).
pub open spec fn before_comma(s: Seq<char>) -> Seq<char>
    decreases s.len(),
{
    if s.len() == 0 {
        Seq::empty()
    } else if s[0] == ',' {
        Seq::empty()
    } else {
        seq![s[0]] + before_comma(s.skip(1))
    }
}

/// The admin rate-limit key of an `X-Forwarded-For` header value: `ip:` and
/// the first address of the list, or `ip:unknown`.
pub open spec fn admin_rate_key_spec(forwarded_for: Option<Seq<char>>) -> Seq<char> {
    match forwarded_for {
        Some(f) => "ip:"@ + before_comma(f),
        None => "ip:unknown"@,
    }
}

/// The admin rate-limit key.
pub fn admin_rate_key(forwarded_for: Option<&str>) -> (r: String)
    ensures
        r@ == admin_rate_key_spec(opt_str_view(forwarded_for)),
{
    let mut k = String::new();
    append_str(&mut k, "ip:");
    match forwarded_for {
        None => {
            append_str(&mut k, "unknown");
            proof {
                reveal_strlit("ip:");
                reveal_strlit("unknown");
                reveal_strlit("ip:unknown");
            }
            assert(k@ =~= "ip:unknown"@);
        },
        Some(f) => {
            let n = f.unicode_len();
            let mut i: usize = 0;
            let ghost start = k@;
            assert(f@.take(0) =~= Seq::<char>::empty());
            assert(f@.skip(0) =~= f@);
            assert(k@ =~= start + f@.take(0));
            while i < n
                invariant
                    i <= n,
                    n == f@.len(),
                    forall|j: int| 0 <= j < i ==> f@[j] != ',',
                    k@ == start + f@.take(i as int),
                    before_comma(f@) == f@.take(i as int) + before_comma(f@.skip(i as int)),
                ensures
                    i <= n,
                    k@ == start + f@.take(i as int),
                    before_comma(f@) == f@.take(i as int) + before_comma(f@.skip(i as int)),
                    i < n ==> f@[i as int] == ',',
                decreases n - i,
            {
                let c = f.get_char(i);
                if c == ',' {
                    break;
                }
                proof {
                    let t = f@.skip(i as int);
                    assert(t[0] == c);
                    assert(t.skip(1) =~= f@.skip(i as int + 1));
                    assert(before_comma(t) == seq![c] + before_comma(t.skip(1)));
                    assert(f@.take(i as int + 1) =~= f@.take(i as int) + seq![c]);
                    assert(f@.take(i as int + 1) + before_comma(f@.skip(i as int + 1))
                        =~= f@.take(i as int) + (seq![c] + before_comma(t.skip(1))));
                }
                push_char(&mut k, c);
                i = i + 1;
            }
            proof {
                if i < n {
                    assert(f@.skip(i as int)[0] == ',');
                } else {
                    assert(f@.skip(i as int).len() == 0);
                }
                assert(before_comma(f@) =~= f@.take(i as int));
            }
        },
    }
    k
}

/// The answer of the chat API to a rate check: refused only when the cache
/// counted the request over the limit (`Some(false)`), with HTTP 429 Too
/// Many Requests; a cache failure (`None`) lets it through.
pub fn chat_rate_verdict(check: Option<bool>) -> (r: Result<(), ApiError>)
    ensures
        check == Some(false) ==> (r matches Err(ApiError::TooManyRequests(m)) && m@ == "rate limit exceeded, too many requests"@),
        check != Some(false) ==> r is Ok,
{
    match check {
        Some(false) => Err(too_many_requests("rate limit exceeded, too many requests")),
        _ => Ok(()),
    }
}

/// The answer of the admin API to a rate check (as for the chat API, with
/// its own message).
pub fn admin_rate_verdict(check: Option<bool>) -> (r: Result<(), ApiError>)
    ensures
        check == Some(false) ==> (r matches Err(ApiError::TooManyRequests(m)) && m@ == "rate limit exceeded"@),
        check != Some(false) ==> r is Ok,
{
    match check {
        Some(false) => Err(too_many_requests("rate limit exceeded")),
        _ => Ok(()),
    }
}

/// Counts a chat request against the in-process limiter: at most 60 per
/// credential per 60 seconds.
pub fn check_chat_rate(limiter: &mut RateLimiter, header: Option<&str>) -> (r: Result<(), ApiError>)
    ensures
        exists|now: u64| #![trigger after_incr(old(limiter).view(), rate_key(chat_rate_key_spec(opt_str_view(header))), 1, RATE_WINDOW_SECS, now)] {
            let key = rate_key(chat_rate_key_spec(opt_str_view(header)));
            &&& (r is Ok <==> incr_result(old(limiter).view(), key, 1, now) <= CHAT_RATE_LIMIT)
            &&& final(limiter).view() == after_incr(old(limiter).view(), key, 1, RATE_WINDOW_SECS, now)
        },
{
    let key = chat_rate_key(header);
    let allowed = limiter.check(key.as_str(), CHAT_RATE_LIMIT, RATE_WINDOW_SECS);
    chat_rate_verdict(Some(allowed))
}

/// Counts an admin request against the in-process limiter: at most 30 per
/// address per 60 seconds.
pub fn check_admin_rate(limiter: &mut RateLimiter, forwarded_for: Option<&str>) -> (r: Result<(), ApiError>)
    ensures
        exists|now: u64| #![trigger after_incr(old(limiter).view(), rate_key(admin_rate_key_spec(opt_str_view(forwarded_for))), 1, RATE_WINDOW_SECS, now)] {
            let key = rate_key(admin_rate_key_spec(opt_str_view(forwarded_for)));
            &&& (r is Ok <==> incr_result(old(limiter).view(), key, 1, now) <= ADMIN_RATE_LIMIT)
            &&& final(limiter).view() == after_incr(old(limiter).view(), key, 1, RATE_WINDOW_SECS, now)
        },
{
    let key = admin_rate_key(forwarded_for);
    let allowed = limiter.check(key.as_str(), ADMIN_RATE_LIMIT, RATE_WINDOW_SECS);
    admin_rate_verdict(Some(allowed))
}

} // verus!
