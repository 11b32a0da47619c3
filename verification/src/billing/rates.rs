//! Credit computation (integer arithmetic only).
//!
//! credits = prompt_tokens * input_rate_per_1k / 1000
//!         + completion_tokens * output_rate_per_1k / 1000

use vstd::prelude::*;

verus! {

/// Token usage (from the upstream usage or the tokenizer estimate).
#[derive(Debug, Clone)]
pub struct UsageTokens {
    pub prompt_tokens: i64,
    pub completion_tokens: i64,
}

impl Default for UsageTokens {
    fn default() -> (r: Self)
        ensures
            r.prompt_tokens == 0,
            r.completion_tokens == 0,
    {
        UsageTokens { prompt_tokens: 0, completion_tokens: 0 }
    }
}

impl UsageTokens {
    /// prompt + completion.
    pub fn total(&self) -> (r: i64)
        requires
            i64::MIN <= self.prompt_tokens + self.completion_tokens <= i64::MAX,
        ensures
            r == self.prompt_tokens + self.completion_tokens,
    {
        self.prompt_tokens + self.completion_tokens
    }
}

/// `x * y` clamped to the bounds of `i64` (what `i64::saturating_mul` computes).
pub open spec fn saturating_mul_spec(x: int, y: int) -> int {
    if x * y > i64::MAX {
        i64::MAX as int
    } else if x * y < i64::MIN {
        i64::MIN as int
    } else {
        x * y
    }
}

/// Integer division rounding toward zero (Rust's `/` on signed integers).
pub open spec fn div_toward_zero(x: int, d: int) -> int
    recommends
        d > 0,
{
    if x >= 0 {
        x / d
    } else {
        -((-x) / d)
    }
}

/// Credits for `tokens` at `rate_per_1k`, rounded toward zero.
pub open spec fn credits_for(tokens: int, rate_per_1k: int) -> int {
    div_toward_zero(saturating_mul_spec(tokens, rate_per_1k), 1000)
}

/// Credits of a usage: each side computed separately (saturating product,
/// divided by 1000 toward zero), then added.
pub open spec fn credits_spec(prompt: int, completion: int, input_rate: int, output_rate: int) -> int {
    credits_for(prompt, input_rate) + credits_for(completion, output_rate)
}

fn saturating_mul_i64(x: i64, y: i64) -> (r: i64)
    ensures
        r == saturating_mul_spec(x as int, y as int),
{
    match x.checked_mul(y) {
        Some(p) => p,
        None => {
            if (x < 0) == (y < 0) {
                assert(x * y > 0) by (nonlinear_arith)
                    requires
                        (x < 0) == (y < 0),
                        x != 0,
                        y != 0,
                ;
                i64::MAX
            } else {
                assert(x * y < 0) by (nonlinear_arith)
                    requires
                        (x < 0) != (y < 0),
                        x != 0,
                        y != 0,
                ;
                i64::MIN
            }
        },
    }
}

fn div_1000(x: i64) -> (r: i64)
    ensures
        r == div_toward_zero(x as int, 1000),
{
    let q = x / 1000;
    assert(q == div_toward_zero(x as int, 1000));
    q
}

/// `x / d` rounded toward zero (Rust's `/` on `i64`), for a positive `d`.
pub fn div_toward_zero_i64(x: i64, d: i64) -> (r: i64)
    requires
        d > 0,
    ensures
        r == div_toward_zero(x as int, d as int),
{
    let dd = d as u64;
    if x >= 0 {
        let u = x as u64;
        let q = u / dd;
        assert(q <= u) by (nonlinear_arith)
            requires
                dd >= 1,
                q == u / dd,
        ;
        q as i64
    } else {
        let u: u64 = ((-(x + 1)) as u64) + 1;
        assert(u == -x);
        let q = u / dd;
        assert(q <= u) by (nonlinear_arith)
            requires
                dd >= 1,
                q == u / dd,
        ;
        if q == 0 {
            0
        } else {
            -(((q - 1) as i64)) - 1
        }
    }
}

/// Credits spent for `usage` at the given rates. Each side rounds toward
/// zero, so a fraction of a credit is never charged.
pub fn compute_credits(usage: &UsageTokens, input_rate_per_1k: i64, output_rate_per_1k: i64) -> (r: i64)
    ensures
        r == credits_spec(
            usage.prompt_tokens as int,
            usage.completion_tokens as int,
            input_rate_per_1k as int,
            output_rate_per_1k as int,
        ),
{
    let input_credits = div_1000(saturating_mul_i64(usage.prompt_tokens, input_rate_per_1k));
    let output_credits = div_1000(saturating_mul_i64(usage.completion_tokens, output_rate_per_1k));
    input_credits + output_credits
}

/// Whether `q` is the quotient of `x` by `d` rounded toward zero, told by
/// the bounds it must keep: `q*d <= x < (q+1)*d` for a non-negative `x`,
/// `(q-1)*d < x <= q*d` for a negative one.
pub open spec fn is_quotient_toward_zero(x: int, d: int, q: int) -> bool {
    &&& x >= 0 ==> q * d <= x && x < (q + 1) * d
    &&& x < 0 ==> (q - 1) * d < x && x <= q * d
}

/// Division toward zero gives the one quotient that keeps those bounds.
pub proof fn lemma_div_toward_zero_quotient(x: int, d: int, q: int)
    requires
        d > 0,
    ensures
        is_quotient_toward_zero(x, d, div_toward_zero(x, d)),
        is_quotient_toward_zero(x, d, q) ==> div_toward_zero(x, d) == q,
{
    let r = div_toward_zero(x, d);
    if x >= 0 {
        vstd::arithmetic::div_mod::lemma_fundamental_div_mod(x, d);
        vstd::arithmetic::div_mod::lemma_mod_bound(x, d);
        assert(r * d <= x && x < (r + 1) * d) by (nonlinear_arith)
            requires
                r == x / d,
                x == d * (x / d) + x % d,
                0 <= x % d < d,
        ;
        if is_quotient_toward_zero(x, d, q) {
            assert(q == r) by (nonlinear_arith)
                requires
                    d > 0,
                    q * d <= x, x < (q + 1) * d,
                    r * d <= x, x < (r + 1) * d,
            ;
        }
    } else {
        let y = -x;
        vstd::arithmetic::div_mod::lemma_fundamental_div_mod(y, d);
        vstd::arithmetic::div_mod::lemma_mod_bound(y, d);
        assert((r - 1) * d < x && x <= r * d) by (nonlinear_arith)
            requires
                y == -x,
                y > 0,
                r == -(y / d),
                y == d * (y / d) + y % d,
                0 <= y % d < d,
        ;
        if is_quotient_toward_zero(x, d, q) {
            assert(q == r) by (nonlinear_arith)
                requires
                    d > 0,
                    (q - 1) * d < x, x <= q * d,
                    (r - 1) * d < x, x <= r * d,
            ;
        }
    }
}

/// Division toward zero by a positive divisor is monotone.
pub proof fn lemma_div_toward_zero_monotone(x1: int, x2: int, d: int)
    requires
        d > 0,
        x1 <= x2,
    ensures
        div_toward_zero(x1, d) <= div_toward_zero(x2, d),
{
    if x1 >= 0 {
        vstd::arithmetic::div_mod::lemma_div_is_ordered(x1, x2, d);
    } else if x2 < 0 {
        vstd::arithmetic::div_mod::lemma_div_is_ordered(-x2, -x1, d);
    } else {
        vstd::arithmetic::div_mod::lemma_div_is_ordered(0, -x1, d);
        vstd::arithmetic::div_mod::lemma_div_is_ordered(0, x2, d);
        assert(0int / d == 0) by (nonlinear_arith) requires d > 0;
    }
}

} // verus!
