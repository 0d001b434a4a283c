//! Points in time as plain integers, and the system clock.

use vstd::prelude::*;

verus! {

/// A point in time: whole seconds since the Unix epoch (UTC), and the
/// nanoseconds that have passed since that second began.
#[derive(Clone, Copy, Debug, PartialEq, Eq, Structural)]
pub struct Timestamp {
    pub secs: i64,
    pub nanos: u32,
}

/// Reads the system clock with `chrono::Utc::now` and splits the reading into
/// seconds and nanoseconds with `DateTime::timestamp` and
/// `DateTime::timestamp_subsec_nanos`.
///
/// Trusted. Of the value only this is claimed: it is a date and time that
/// `chrono` accepts, so it has an RFC 3339 text. Two readings may differ in
/// either direction. `Utc::now` panics when the system clock is set before
/// 1970.
#[verifier::external_body]
pub(crate) fn utc_now() -> (now: Timestamp)
    ensures
        rfc3339_text(now.secs, now.nanos) is Some,
{
    let t = chrono::Utc::now();
    Timestamp { secs: t.timestamp(), nanos: t.timestamp_subsec_nanos() }
}

/// The RFC 3339 text of a point in time, as `chrono` writes it for UTC; `None`
/// for seconds or nanoseconds that `chrono` does not accept as a date and time.
pub uninterp spec fn rfc3339_text(secs: i64, nanos: u32) -> Option<Seq<char>>;

/// Builds the date and time with `chrono::DateTime::from_timestamp` and writes
/// it with `DateTime::to_rfc3339`.
///
/// Trusted: the result is the RFC 3339 text of the point in time, and `None`
/// exactly where it has none.
#[verifier::external_body]
pub(crate) fn rfc3339(at: Timestamp) -> (text: Option<String>)
    ensures
        match text {
            Some(text) => rfc3339_text(at.secs, at.nanos) == Some(text@),
            None => rfc3339_text(at.secs, at.nanos) is None,
        },
{
    chrono::DateTime::from_timestamp(at.secs, at.nanos).map(|time| time.to_rfc3339())
}

/// The pattern of a date and time with a space between the two.
pub open spec fn sql_pattern() -> Seq<char> {
    "%Y-%m-%d %H:%M:%S"@
}

/// The pattern of a date and time with a `T` between the two.
pub open spec fn iso_pattern() -> Seq<char> {
    "%Y-%m-%dT%H:%M:%S"@
}

/// The text that `chrono` writes, after `pattern`, for the date and time in
/// UTC that lies `secs` seconds after the Unix epoch; `None` for seconds that
/// `chrono` does not accept as a date and time.
pub uninterp spec fn datetime_text(secs: i64, pattern: Seq<char>) -> Option<Seq<char>>;

/// Builds the date and time with `chrono::DateTime::from_timestamp` and writes
/// it with `NaiveDateTime::format`.
///
/// Trusted: the result is the text of the date and time after the pattern,
/// and `None` exactly where the seconds have none. Writing fails on a
/// pattern that `chrono` does not know; the two patterns that are admitted
/// hold only year, month, day, hour, minute and second.
#[verifier::external_body]
pub(crate) fn format_datetime(secs: i64, pattern: &str) -> (text: Option<String>)
    requires
        pattern@ == sql_pattern() || pattern@ == iso_pattern(),
    ensures
        match text {
            Some(text) => datetime_text(secs, pattern@) == Some(text@),
            None => datetime_text(secs, pattern@) is None,
        },
{
    chrono::DateTime::from_timestamp(secs, 0).map(|time| time.naive_utc().format(pattern).to_string())
}

} // verus!
