//! Wall-clock time and RFC 3339 timestamps, through `chrono`.
use vstd::prelude::*;

verus! {

/// Names whether `chrono::DateTime::parse_from_rfc3339` accepts a text.
pub uninterp spec fn rfc3339_valid(t: Seq<char>) -> bool;

/// Calls `chrono::DateTime::parse_from_rfc3339` and keeps only whether it
/// succeeded. Trusted: the answer is a function of the text alone.
#[verifier::external_body]
pub fn parses_as_rfc3339(t: &str) -> (r: bool)
    ensures
        r == rfc3339_valid(t@),
{
    chrono::DateTime::parse_from_rfc3339(t).is_ok()
}

/// A decimal digit.
pub open spec fn is_digit(c: char) -> bool {
    '0' <= c && c <= '9'
}

/// What `to_rfc3339` writes for a clock reading: at least
/// `YYYY-MM-DDTHH:MM:SS+HH:MM` (25 characters), valid RFC 3339 for a year
/// of four digits, and opening with `+` for a year past 9999, which the
/// format cannot hold.
pub open spec fn clock_rfc3339_shape(t: Seq<char>) -> bool {
    t.len() >= 25 && (t[0] == '+' || rfc3339_valid(t))
}

/// Calls `chrono::Local::now` and renders the instant with `to_rfc3339`.
/// Trusted: the text has the shape of [`clock_rfc3339_shape`] (the writer,
/// `write_rfc3339`, prints a year in 0..=9999 as four digits and any other
/// with its sign, then two-digit fields and a `+HH:MM` offset). Which
/// instant it shows depends on the clock and the time zone and is not
/// stated. `Local::now` panics where the clock reads before 1970.
#[verifier::external_body]
pub fn local_now_rfc3339() -> (t: String)
    ensures
        clock_rfc3339_shape(t@),
{
    chrono::Local::now().to_rfc3339()
}

/// The shape of a clock reading rendered as `%Y%m%d_%H%M%S`: a year of
/// four digits or more (with `+` before years past 9999), then month, day,
/// `_`, hour, minute and second, two digits each.
pub open spec fn compact_stamp_shape(s: Seq<char>) -> bool {
    &&& s.len() >= 15
    &&& s[s.len() - 7] == '_'
    &&& forall|i: int|
        0 <= i < s.len() && i != s.len() - 7 ==> #[trigger] is_digit(s[i]) || (i == 0 && s[i] == '+')
}

/// Calls `chrono::Local::now` and renders the instant with the pattern
/// `%Y%m%d_%H%M%S` (for instance `20260228_143000`). Trusted: the text has
/// the shape of [`compact_stamp_shape`] (`%Y` pads to four digits and signs
/// years past 9999; the other fields are zero-padded to two digits; the
/// clock cannot read before 1970, where `Local::now` panics). Which instant
/// it shows is not stated.
#[verifier::external_body]
pub fn local_now_compact() -> (s: String)
    ensures
        compact_stamp_shape(s@),
{
    chrono::Local::now().format("%Y%m%d_%H%M%S").to_string()
}

} // verus!
