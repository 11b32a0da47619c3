//! The wall clock (chrono's `Utc::now()`).

use vstd::prelude::*;

verus! {

/// The current Unix time in seconds (chrono's `Utc::now().timestamp()`).
/// Nothing is claimed of the value: it is the time.
#[verifier::external_body]
pub(crate) fn unix_now_secs() -> i64 {
    chrono::Utc::now().timestamp()
}

/// The current Unix time in milliseconds (chrono's
/// `Utc::now().timestamp_millis()`). Nothing is claimed of the value.
#[verifier::external_body]
pub(crate) fn unix_now_millis() -> i64 {
    chrono::Utc::now().timestamp_millis()
}

} // verus!

verus! {

/// Whether `s` ends in a month `01` to `12`.
pub open spec fn ends_in_month(s: Seq<char>) -> bool {
    s.len() >= 2 && {
        let t = s[s.len() - 2];
        let u = s[s.len() - 1];
        (t == '0' && '1' <= u && u <= '9') || (t == '1' && '0' <= u && u <= '2')
    }
}

/// Whether `s` has the shape chrono gives a month under `%Y%m`: at least
/// four characters of year, then the month as two digits `01` to `12`.
pub open spec fn period_shaped(s: Seq<char>) -> bool {
    s.len() >= 6 && ends_in_month(s)
}

/// The current month as chrono formats it with `%Y%m` (chrono's
/// `Utc::now().format("%Y%m").to_string()`), e.g. `202405`. Which month it
/// is, is the time's; claimed of every outcome: chrono writes the year with
/// at least four characters (four digits, or a sign and more digits outside
/// 0..=9999) and the month as two zero-padded digits.
#[verifier::external_body]
pub(crate) fn current_period() -> (r: String)
    ensures
        period_shaped(r@),
{
    chrono::Utc::now().format("%Y%m").to_string()
}

} // verus!
