//! Timestamps read through `chrono`, kept as milliseconds since the epoch.

use vstd::prelude::*;

use crate::json::{str_field, Json};

verus! {

/// Milliseconds since the epoch of an RFC 3339 timestamp, as
/// `chrono::DateTime::parse_from_rfc3339(..).timestamp_millis()` gives it.
pub uninterp spec fn spec_rfc3339_millis(text: Seq<char>) -> Option<i64>;

/// `chrono::DateTime::parse_from_rfc3339` followed by `timestamp_millis`;
/// `None` when the text is not RFC 3339.
#[verifier::external_body]
pub(crate) fn rfc3339_millis(text: &str) -> (r: Option<i64>)
    ensures
        r == spec_rfc3339_millis(text@),
{
    chrono::DateTime::parse_from_rfc3339(text).ok().map(|dt| dt.timestamp_millis())
}

/// Whether `chrono::DateTime::from_timestamp(secs, 0)` gives a date: it does
/// for every second inside chrono's calendar range.
pub uninterp spec fn spec_secs_in_range(secs: i64) -> bool;

/// `chrono::DateTime::from_timestamp(secs, 0)`, read back as milliseconds.
/// Only whether `secs` lies in chrono's range is left uninterpreted; the
/// milliseconds of a date made from whole seconds are `secs * 1000`.
#[verifier::external_body]
pub(crate) fn secs_to_millis(secs: i64) -> (r: Option<i64>)
    ensures
        r is Some == spec_secs_in_range(secs),
        r matches Some(ms) ==> ms == secs * 1000,
{
    chrono::DateTime::from_timestamp(secs, 0).map(|dt| dt.timestamp_millis())
}

/// Whether `chrono::DateTime::from_timestamp_millis(ms)` gives a date.
pub uninterp spec fn spec_millis_in_range(ms: i64) -> bool;

/// `chrono::DateTime::from_timestamp_millis(ms).is_some()`: whether `ms`
/// lies in chrono's calendar range.
#[verifier::external_body]
pub(crate) fn millis_in_range(ms: i64) -> (r: bool)
    ensures
        r == spec_millis_in_range(ms),
{
    chrono::DateTime::from_timestamp_millis(ms).is_some()
}

/// The time in member `key` of `j`, when it is an RFC 3339 string.
pub open spec fn rfc3339_field(j: Json, key: Seq<char>) -> Option<i64> {
    match str_field(j, key) {
        Some(s) => spec_rfc3339_millis(s),
        None => None,
    }
}

/// Reads member `key` of `j` as an RFC 3339 time, in milliseconds.
pub fn rfc3339_at(j: &Json, key: &str) -> (r: Option<i64>)
    ensures
        r == rfc3339_field(*j, key@),
{
    match j.get_str(key) {
        Some(s) => rfc3339_millis(s),
        None => None,
    }
}

} // verus!
