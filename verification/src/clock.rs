//! Timestamps: parsing the RFC 3339 creation time that a message reports,
//! and reading the current time. Both lean on the `chrono` crate.

use vstd::prelude::*;

verus! {

/// The instant a valid RFC 3339 date-and-time string denotes, in non-leap
/// milliseconds since the Unix epoch, or `None` when the string is not a
/// valid RFC 3339 value.
pub uninterp spec fn rfc3339_ms_of(s: Seq<char>) -> Option<int>;

/// Relies on chrono's `DateTime::parse_from_rfc3339` and `timestamp_millis`:
/// parsing accepts exactly the valid RFC 3339 date-and-time values, and the
/// result is a function of the string alone.
#[verifier::external_body]
pub(crate) fn parse_rfc3339_ms(s: &str) -> (r: Option<i64>)
    ensures
        match r {
            Some(ms) => rfc3339_ms_of(s@) == Some(ms as int),
            None => rfc3339_ms_of(s@) is None,
        },
{
    chrono::DateTime::parse_from_rfc3339(s).ok().map(|dt| dt.timestamp_millis())
}

/// Relies on chrono's `Utc::now` and `timestamp_millis`: the current time in
/// non-leap milliseconds since the Unix epoch. Nothing is promised of the
/// value; callers must hold for every reading. Aborts only when the system
/// clock reports a time before the Unix epoch, as `Utc::now` itself does.
#[verifier::external_body]
pub(crate) fn now_unix_ms() -> (r: i64) {
    chrono::Utc::now().timestamp_millis()
}

} // verus!
