//! The date that a saved post is stamped with.

use vstd::prelude::*;

verus! {

/// Whether a character can occur in a date stamp: a digit, a hyphen, or the
/// plus sign of a year beyond 9999.
pub open spec fn is_stamp_char(c: char) -> bool {
    ('0' <= c && c <= '9') || c == '-' || c == '+'
}

/// What holds of every date stamp: it has at least the ten characters of a
/// four-digit year, a two-digit month and a two-digit day with hyphens
/// between them, and holds nothing but digits, hyphens and plus signs.
pub open spec fn is_stamp(date: Seq<char>) -> bool {
    date.len() >= 10 && forall|i: int| 0 <= i < date.len() ==> is_stamp_char(#[trigger] date[i])
}

/// Today's date in the local time zone, written as year, month and day with
/// hyphens between them.
///
/// Wraps `chrono::Local::now()` and renders it with the format `%Y-%m-%d`.
/// Which date comes out is the clock's and the time zone's. `chrono` writes
/// the year with at least four digits, with a sign before it outside the
/// years 0 to 9999, and month and day with two digits each: the contract
/// claims the length and the characters that follow from that, and no more.
/// `chrono` panics where the clock is set before 1970, or where the time
/// zone data has no local time for the moment.
#[verifier::external_body]
pub(crate) fn today() -> (date: String)
    ensures
        is_stamp(date@),
{
    chrono::Local::now().format("%Y-%m-%d").to_string()
}

} // verus!
