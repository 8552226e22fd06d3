//! The wall clock, read to the minute.

use vstd::prelude::*;

verus! {

/// Whether `c` is one of the ten decimal digits.
pub open spec fn is_digit(c: char) -> bool {
    '0' <= c && c <= '9'
}

/// Whether `s` ends in four digits of a year followed by `-MM-DD HH:MM`,
/// where each of `M`, `D` and `H` stands for a digit.
pub open spec fn is_minute_stamp(s: Seq<char>) -> bool {
    let n = s.len() as int;
    &&& n >= 16
    &&& is_digit(s[n - 16]) && is_digit(s[n - 15]) && is_digit(s[n - 14]) && is_digit(s[n - 13])
    &&& s[n - 12] == '-'
    &&& is_digit(s[n - 11]) && is_digit(s[n - 10])
    &&& s[n - 9] == '-'
    &&& is_digit(s[n - 8]) && is_digit(s[n - 7])
    &&& s[n - 6] == ' '
    &&& is_digit(s[n - 5]) && is_digit(s[n - 4])
    &&& s[n - 3] == ':'
    &&& is_digit(s[n - 2]) && is_digit(s[n - 1])
}

/// The current local date and time to the minute, as `YYYY-MM-DD HH:MM`.
///
/// Calls `chrono::Local::now` and formats what it gives with
/// `DateTime::format` and the pattern `%Y-%m-%d %H:%M`. Each call reads the
/// clock and the time zone of the machine, so nothing is claimed of which
/// minute comes back: only the shape that the pattern gives to every date.
/// chrono writes month, day, hour and minute with two digits each and the
/// year with four, or with a sign and more where it lies outside 0..=9999.
/// chrono itself panics where the system clock stands before 1970.
#[verifier::external_body]
pub(crate) fn local_minute_stamp() -> (stamp: String)
    ensures
        is_minute_stamp(stamp@),
{
    chrono::Local::now().format("%Y-%m-%d %H:%M").to_string()
}

} // verus!
