//! Byte-to-text encodings: lower-case hex and unpadded base64url.

use vstd::prelude::*;
use crate::text::push_char;

verus! {

/// The lower-case hex digit of `v` (0..16).
pub open spec fn hex_digit(v: u8) -> char {
    "0123456789abcdef"@[v as int]
}

/// Lower-case hex of the bytes: two digits per byte, high nibble first.
pub open spec fn hex_lower(b: Seq<u8>) -> Seq<char>
    decreases b.len(),
{
    if b.len() == 0 {
        Seq::empty()
    } else {
        seq![hex_digit(b[0] >> 4), hex_digit(b[0] & 0x0f)] + hex_lower(b.skip(1))
    }
}

/// Hex text is twice as long as the bytes.
pub proof fn lemma_hex_lower_len(b: Seq<u8>)
    ensures
        hex_lower(b).len() == 2 * b.len(),
    decreases b.len(),
{
    if b.len() > 0 {
        lemma_hex_lower_len(b.skip(1));
    }
}

/// Whether `c` is a lower-case hex digit (`0-9a-f`).
pub open spec fn lower_hex_char(c: char) -> bool {
    ('0' <= c && c <= '9') || ('a' <= c && c <= 'f')
}

proof fn lemma_hex_digit(v: u8)
    requires
        v < 16,
    ensures
        lower_hex_char(hex_digit(v)),
{
    reveal_strlit("0123456789abcdef");
}

/// Hex text holds lower-case hex digits only.
pub proof fn lemma_hex_lower_digits(b: Seq<u8>)
    ensures
        forall|i: int| 0 <= i < hex_lower(b).len() ==> lower_hex_char(#[trigger] hex_lower(b)[i]),
    decreases b.len(),
{
    if b.len() > 0 {
        let x = b[0];
        assert(x >> 4 < 16) by (bit_vector);
        assert(x & 0x0f < 16) by (bit_vector);
        lemma_hex_digit(x >> 4);
        lemma_hex_digit(x & 0x0f);
        lemma_hex_lower_digits(b.skip(1));
        let rest = hex_lower(b.skip(1));
        assert forall|i: int| 0 <= i < hex_lower(b).len() implies lower_hex_char(#[trigger] hex_lower(b)[i]) by {
            if i >= 2 {
                assert(hex_lower(b)[i] == rest[i - 2]);
            }
        }
    }
}

/// Appends the lower-case hex of `bytes`.
pub fn push_hex_lower(s: &mut String, bytes: &[u8])
    ensures
        final(s)@ == old(s)@ + hex_lower(bytes@),
{
    let table = "0123456789abcdef";
    proof {
        reveal_strlit("0123456789abcdef");
    }
    let mut i: usize = 0;
    assert(bytes@.skip(0) =~= bytes@);
    while i < bytes.len()
        invariant
            i <= bytes@.len(),
            table@ == "0123456789abcdef"@,
            table@.len() == 16,
            old(s)@ + hex_lower(bytes@) == s@ + hex_lower(bytes@.skip(i as int)),
        decreases bytes@.len() - i,
    {
        let b = bytes[i];
        assert((b >> 4) < 16 && (b & 0x0f) < 16) by (bit_vector);
        let ghost prev = s@;
        push_char(s, table.get_char((b >> 4) as usize));
        push_char(s, table.get_char((b & 0x0f) as usize));
        assert(bytes@.skip(i as int).skip(1) =~= bytes@.skip(i as int + 1));
        assert(bytes@.skip(i as int)[0] == b);
        assert(s@ + hex_lower(bytes@.skip(i as int + 1))
            =~= prev + hex_lower(bytes@.skip(i as int)));
        i = i + 1;
    }
    assert(bytes@.skip(i as int) =~= Seq::<u8>::empty());
    assert(s@ + hex_lower(bytes@.skip(i as int)) =~= s@);
}

/// The lower-case hex of `bytes`.
pub fn hex_lower_string(bytes: &[u8]) -> (r: String)
    ensures
        r@ == hex_lower(bytes@),
{
    let mut s = String::new();
    push_hex_lower(&mut s, bytes);
    assert(Seq::<char>::empty() + hex_lower(bytes@) =~= hex_lower(bytes@));
    s
}

/// The base64url alphabet (URL-safe, `-` and `_`).
pub open spec fn b64_alphabet() -> Seq<char> {
    "ABCDEFGHIJKLMNOPQRSTUVWXYZabcdefghijklmnopqrstuvwxyz0123456789-_"@
}

/// The base64url character of a 6-bit value.
pub open spec fn b64_char(v: u8) -> char {
    b64_alphabet()[v as int]
}

/// Unpadded base64url: every 3 bytes give 4 characters; a trailing single
/// byte gives 2 and a trailing pair 3 (the unused low bits are zero).
pub open spec fn base64url(b: Seq<u8>) -> Seq<char>
    decreases b.len(),
{
    if b.len() == 0 {
        Seq::empty()
    } else if b.len() == 1 {
        seq![b64_char(b[0] >> 2), b64_char((b[0] & 3) << 4)]
    } else if b.len() == 2 {
        seq![
            b64_char(b[0] >> 2),
            b64_char(((b[0] & 3) << 4) | (b[1] >> 4)),
            b64_char((b[1] & 15) << 2),
        ]
    } else {
        seq![
            b64_char(b[0] >> 2),
            b64_char(((b[0] & 3) << 4) | (b[1] >> 4)),
            b64_char(((b[1] & 15) << 2) | (b[2] >> 6)),
            b64_char(b[2] & 63),
        ] + base64url(b.skip(3))
    }
}

/// Length of unpadded base64url: 4 characters per full group of 3 bytes,
/// plus 2 or 3 for a trailing 1 or 2 bytes.
pub open spec fn base64url_len(n: nat) -> nat {
    4 * (n / 3) + (if n % 3 == 0 { 0nat } else if n % 3 == 1 { 2nat } else { 3nat })
}

/// The encoded length is `base64url_len` of the byte count.
pub proof fn lemma_base64url_len(b: Seq<u8>)
    ensures
        base64url(b).len() == base64url_len(b.len()),
    decreases b.len(),
{
    if b.len() >= 3 {
        lemma_base64url_len(b.skip(3));
    }
}

/// Every character of base64url text is in the URL-safe alphabet.
pub proof fn lemma_base64url_alphabet(b: Seq<u8>)
    ensures
        forall|i: int| 0 <= i < base64url(b).len() ==> b64_alphabet().contains(#[trigger] base64url(b)[i]),
    decreases b.len(),
{
    reveal_strlit("ABCDEFGHIJKLMNOPQRSTUVWXYZabcdefghijklmnopqrstuvwxyz0123456789-_");
    assert(b64_alphabet().len() == 64);
    if b.len() == 0 {
    } else if b.len() == 1 {
        let x = b[0];
        assert((x >> 2) < 64 && ((x & 3) << 4) < 64) by (bit_vector);
        assert(b64_alphabet().contains(b64_char(x >> 2)));
        assert(b64_alphabet().contains(b64_char((x & 3) << 4)));
    } else if b.len() == 2 {
        let x = b[0];
        let y = b[1];
        assert((x >> 2) < 64 && (((x & 3) << 4) | (y >> 4)) < 64 && ((y & 15) << 2) < 64) by (bit_vector);
        assert(b64_alphabet().contains(b64_char(x >> 2)));
        assert(b64_alphabet().contains(b64_char(((x & 3) << 4) | (y >> 4))));
        assert(b64_alphabet().contains(b64_char((y & 15) << 2)));
    } else {
        let x = b[0];
        let y = b[1];
        let z = b[2];
        assert((x >> 2) < 64 && (((x & 3) << 4) | (y >> 4)) < 64 && (((y & 15) << 2) | (z >> 6)) < 64
            && (z & 63) < 64) by (bit_vector);
        lemma_base64url_alphabet(b.skip(3));
        let head = seq![
            b64_char(x >> 2),
            b64_char(((x & 3) << 4) | (y >> 4)),
            b64_char(((y & 15) << 2) | (z >> 6)),
            b64_char(z & 63),
        ];
        assert(b64_alphabet().contains(head[0]));
        assert(b64_alphabet().contains(head[1]));
        assert(b64_alphabet().contains(head[2]));
        assert(b64_alphabet().contains(head[3]));
        assert forall|i: int| 0 <= i < base64url(b).len() implies b64_alphabet().contains(#[trigger] base64url(b)[i]) by {
            if i < 4 {
                assert(base64url(b)[i] == head[i]);
            } else {
                assert(base64url(b)[i] == base64url(b.skip(3))[i - 4]);
            }
        }
    }
}

/// Unpadded base64url of `bytes`.
pub fn base64url_encode(bytes: &[u8]) -> (r: String)
    ensures
        r@ == base64url(bytes@),
{
    let table = "ABCDEFGHIJKLMNOPQRSTUVWXYZabcdefghijklmnopqrstuvwxyz0123456789-_";
    proof {
        reveal_strlit("ABCDEFGHIJKLMNOPQRSTUVWXYZabcdefghijklmnopqrstuvwxyz0123456789-_");
    }
    let mut out = String::new();
    let n = bytes.len();
    let mut i: usize = 0;
    assert(bytes@.skip(0) =~= bytes@);
    assert(Seq::<char>::empty() + base64url(bytes@) =~= base64url(bytes@));
    while n - i >= 3
        invariant
            n == bytes@.len(),
            i <= n,
            table@ == b64_alphabet(),
            table@.len() == 64,
            base64url(bytes@) == out@ + base64url(bytes@.skip(i as int)),
        decreases n - i,
    {
        let x = bytes[i];
        let y = bytes[i + 1];
        let z = bytes[i + 2];
        assert((x >> 2) < 64 && (((x & 3) << 4) | (y >> 4)) < 64 && (((y & 15) << 2) | (z >> 6)) < 64
            && (z & 63) < 64) by (bit_vector);
        let ghost prev = out@;
        let ghost rest = bytes@.skip(i as int);
        assert(rest[0] == x && rest[1] == y && rest[2] == z);
        push_char(&mut out, table.get_char((x >> 2) as usize));
        push_char(&mut out, table.get_char((((x & 3) << 4) | (y >> 4)) as usize));
        push_char(&mut out, table.get_char((((y & 15) << 2) | (z >> 6)) as usize));
        push_char(&mut out, table.get_char((z & 63) as usize));
        assert(rest.skip(3) =~= bytes@.skip(i as int + 3));
        assert(out@ + base64url(bytes@.skip(i as int + 3)) =~= prev + base64url(rest));
        i = i + 3;
    }
    let ghost prev = out@;
    let ghost rest = bytes@.skip(i as int);
    if n - i == 1 {
        let x = bytes[i];
        assert(rest[0] == x);
        assert((x >> 2) < 64 && ((x & 3) << 4) < 64) by (bit_vector);
        push_char(&mut out, table.get_char((x >> 2) as usize));
        push_char(&mut out, table.get_char(((x & 3) << 4) as usize));
        assert(out@ =~= prev + base64url(rest));
    } else if n - i == 2 {
        let x = bytes[i];
        let y = bytes[i + 1];
        assert(rest[0] == x && rest[1] == y);
        assert((x >> 2) < 64 && (((x & 3) << 4) | (y >> 4)) < 64 && ((y & 15) << 2) < 64) by (bit_vector);
        push_char(&mut out, table.get_char((x >> 2) as usize));
        push_char(&mut out, table.get_char((((x & 3) << 4) | (y >> 4)) as usize));
        push_char(&mut out, table.get_char(((y & 15) << 2) as usize));
        assert(out@ =~= prev + base64url(rest));
    } else {
        assert(rest.len() == 0);
        assert(out@ =~= prev + base64url(rest));
    }
    out
}

} // verus!
