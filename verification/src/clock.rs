//! Wall-clock and calendar parsing, through `chrono`.
//!
//! Instants are carried through the library as Unix time in milliseconds.

use vstd::prelude::*;

verus! {

/// `chrono::Utc::now`, as Unix milliseconds. Nothing is promised of the value:
/// it is the clock's reading at the time of the call.
#[verifier::external_body]
pub(crate) fn now_millis() -> i64 {
    chrono::Utc::now().timestamp_millis()
}

/// The instant that `chrono::NaiveDateTime::parse_from_str` reads from `text`
/// with the format `fmt`, taken as UTC and counted in Unix milliseconds;
/// `None` where the text does not match the format.
pub uninterp spec fn naive_datetime_millis(text: Seq<char>, fmt: Seq<char>) -> Option<int>;

/// The instant that `chrono::DateTime::parse_from_rfc3339` reads from `text`,
/// in Unix milliseconds; `None` where the text is not RFC 3339.
pub uninterp spec fn rfc3339_millis(text: Seq<char>) -> Option<int>;

/// `chrono::NaiveDateTime::parse_from_str`: the parsed instant (as UTC) is
/// `naive_datetime_millis(text, fmt)`; the calendar arithmetic is not restated.
#[verifier::external_body]
pub(crate) fn parse_naive_datetime_millis(text: &str, fmt: &str) -> (r: Option<i64>)
    ensures
        r matches Some(v) ==> naive_datetime_millis(text@, fmt@) == Some(v as int),
        r is None ==> naive_datetime_millis(text@, fmt@) is None,
{
    chrono::NaiveDateTime::parse_from_str(text, fmt).ok().map(|d| d.and_utc().timestamp_millis())
}

/// `chrono::DateTime::parse_from_rfc3339`: the parsed instant is
/// `rfc3339_millis(text)`; the calendar arithmetic is not restated.
#[verifier::external_body]
pub(crate) fn parse_rfc3339_millis(text: &str) -> (r: Option<i64>)
    ensures
        r matches Some(v) ==> rfc3339_millis(text@) == Some(v as int),
        r is None ==> rfc3339_millis(text@) is None,
{
    chrono::DateTime::parse_from_rfc3339(text).ok().map(|d| d.timestamp_millis())
}

} // verus!
