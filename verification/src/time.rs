//! Points in time, and the calls into `chrono` that read, write and take them.

use vstd::prelude::*;
use crate::text::opt_view;

verus! {

/// A point in time: whole seconds since the Unix epoch (UTC) and the
/// nanoseconds within that second.
#[derive(Debug, Clone, Copy, PartialEq, Eq, Structural)]
pub struct Timestamp {
    pub secs: i64,
    pub nanos: u32,
}

/// `a` is strictly earlier than `b`.
pub open spec fn ts_lt(a: Timestamp, b: Timestamp) -> bool {
    a.secs < b.secs || (a.secs == b.secs && a.nanos < b.nanos)
}

/// `a` is earlier than or equal to `b`.
pub open spec fn ts_le(a: Timestamp, b: Timestamp) -> bool {
    ts_lt(a, b) || a == b
}

impl Timestamp {
    /// Whether `self` is strictly earlier than `other`.
    pub fn is_before(&self, other: &Timestamp) -> (r: bool)
        ensures
            r == ts_lt(*self, *other),
    {
        self.secs < other.secs || (self.secs == other.secs && self.nanos < other.nanos)
    }

    /// Whether `self` is earlier than or equal to `other`.
    pub fn is_at_or_before(&self, other: &Timestamp) -> (r: bool)
        ensures
            r == ts_le(*self, *other),
    {
        self.is_before(other) || (self.secs == other.secs && self.nanos == other.nanos)
    }
}

/// The instant that `chrono::DateTime::parse_from_rfc3339` reads from a text, in UTC,
/// as (seconds since the epoch, nanoseconds within the second).
pub uninterp spec fn rfc3339_parse_result(s: Seq<char>) -> Option<(i64, u32)>;

/// The instant that `str::parse::<chrono::DateTime<chrono::Utc>>` reads from a text
/// (a relaxed RFC 3339), as (seconds since the epoch, nanoseconds within the second).
pub uninterp spec fn utc_parse_result(s: Seq<char>) -> Option<(i64, u32)>;

/// The instant that `chrono::NaiveDateTime::parse_from_str` reads from a text
/// in the format `%Y-%m-%d %H:%M:%S`, taken as UTC.
pub uninterp spec fn naive_parse_result(s: Seq<char>) -> Option<(i64, u32)>;

/// The text that `chrono::DateTime::<Utc>::to_rfc3339` writes for an instant,
/// or `None` where `DateTime::from_timestamp` rejects the instant as out of range.
pub uninterp spec fn rfc3339_text(secs: i64, nanos: u32) -> Option<Seq<char>>;

/// The text that `chrono::DateTime::<Utc>`'s `Display` writes for an instant
/// (such as `2024-01-02 03:04:05 UTC`), or `None` where
/// `DateTime::from_timestamp` rejects the instant as out of range.
pub uninterp spec fn utc_display_text(secs: i64, nanos: u32) -> Option<Seq<char>>;

pub open spec fn to_timestamp(p: Option<(i64, u32)>) -> Option<Timestamp> {
    match p {
        Some(x) => Some(Timestamp { secs: x.0, nanos: x.1 }),
        None => None,
    }
}

/// The current time from `chrono::Utc::now`. The instant comes from the system
/// clock as a duration since the Unix epoch, so it is not before the epoch and
/// its nanoseconds are those within one second; which instant it is, is not
/// stated.
#[verifier::external_body]
pub(crate) fn now() -> (r: Timestamp)
    ensures
        r.secs >= 0,
        r.nanos < 1_000_000_000,
{
    let t = chrono::Utc::now();
    Timestamp { secs: t.timestamp(), nanos: t.timestamp_subsec_nanos() }
}

/// `chrono::DateTime::parse_from_rfc3339`, converted to UTC.
#[verifier::external_body]
pub(crate) fn parse_rfc3339(s: &str) -> (r: Option<Timestamp>)
    ensures
        r == to_timestamp(rfc3339_parse_result(s@)),
{
    match chrono::DateTime::parse_from_rfc3339(s) {
        Ok(dt) => Some(Timestamp { secs: dt.timestamp(), nanos: dt.timestamp_subsec_nanos() }),
        Err(_) => None,
    }
}

/// `str::parse::<chrono::DateTime<chrono::Utc>>` (RFC 3339 with a space or `T`
/// between date and time). On failure the error is chrono's message, of which
/// nothing is stated.
#[verifier::external_body]
pub(crate) fn parse_utc(s: &str) -> (r: Result<Timestamp, String>)
    ensures
        match r {
            Ok(t) => to_timestamp(utc_parse_result(s@)) == Some(t),
            Err(_) => utc_parse_result(s@) is None,
        },
{
    match s.parse::<chrono::DateTime<chrono::Utc>>() {
        Ok(dt) => Ok(Timestamp { secs: dt.timestamp(), nanos: dt.timestamp_subsec_nanos() }),
        Err(e) => Err(e.to_string()),
    }
}

/// `chrono::NaiveDateTime::parse_from_str` with the format `%Y-%m-%d %H:%M:%S`,
/// read as UTC.
#[verifier::external_body]
pub(crate) fn parse_naive_utc(s: &str) -> (r: Option<Timestamp>)
    ensures
        r == to_timestamp(naive_parse_result(s@)),
{
    match chrono::NaiveDateTime::parse_from_str(s, "%Y-%m-%d %H:%M:%S") {
        Ok(dt) => {
            let t = dt.and_utc();
            Some(Timestamp { secs: t.timestamp(), nanos: t.timestamp_subsec_nanos() })
        },
        Err(_) => None,
    }
}

/// `chrono::DateTime::<Utc>::from_timestamp` followed by `to_rfc3339`.
#[verifier::external_body]
pub(crate) fn format_rfc3339(t: Timestamp) -> (r: Option<String>)
    ensures
        opt_view(r) == rfc3339_text(t.secs, t.nanos),
{
    match chrono::DateTime::<chrono::Utc>::from_timestamp(t.secs, t.nanos) {
        Some(dt) => Some(dt.to_rfc3339()),
        None => None,
    }
}

/// `chrono::DateTime::<Utc>::from_timestamp` followed by its `Display`.
#[verifier::external_body]
pub(crate) fn format_utc_display(t: Timestamp) -> (r: Option<String>)
    ensures
        opt_view(r) == utc_display_text(t.secs, t.nanos),
{
    match chrono::DateTime::<chrono::Utc>::from_timestamp(t.secs, t.nanos) {
        Some(dt) => Some(dt.to_string()),
        None => None,
    }
}

} // verus!
