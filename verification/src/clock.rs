//! Wall-clock readings through `chrono`.

use vstd::prelude::*;
use crate::text::is_digit;

verus! {

/// An RFC 3339 time in UTC as `chrono` writes it: at least `YYYY-MM-DDTHH:MM:SS+00:00`,
/// with a `T` between date and time and the `+00:00` offset at the end.
pub open spec fn rfc3339_utc_text(s: Seq<char>) -> bool {
    &&& s.len() >= 25
    &&& s.subrange(s.len() - 6, s.len() as int) == "+00:00"@
    &&& s.contains('T')
}

/// A `%Y%m%d_%H%M%S` time: digits, one `_` seven places from the end, and a first
/// character that is a digit or the `+` that `chrono` puts before a year above 9999.
pub open spec fn compact_timestamp_text(s: Seq<char>) -> bool {
    &&& s.len() >= 15
    &&& s[s.len() - 7] == '_'
    &&& (is_digit(s[0]) || s[0] == '+')
    &&& forall|i: int| 1 <= i < s.len() && i != s.len() - 7 ==> is_digit(#[trigger] s[i])
}

/// `chrono::Utc::now` rendered with `to_rfc3339`. The time is read from the system clock;
/// the source writes the year (four digits, or signed past 9999), `-MM-DD`, `T`,
/// `HH:MM:SS`, an optional fraction, and the zero offset as `+00:00`.
#[verifier::external_body]
pub fn now_rfc3339() -> (r: String)
    ensures
        rfc3339_utc_text(r@),
{
    chrono::Utc::now().to_rfc3339()
}

/// `chrono::Utc::now` rendered with the `%Y%m%d_%H%M%S` pattern. The time is read from
/// the system clock, which `Utc::now` requires to be after 1970; the source writes the
/// year as four digits (with a `+` sign past 9999) and the other fields as two digits.
#[verifier::external_body]
pub fn now_compact() -> (r: String)
    ensures
        compact_timestamp_text(r@),
{
    chrono::Utc::now().format("%Y%m%d_%H%M%S").to_string()
}

} // verus!
