//! Points in time, as milliseconds since the Unix epoch.
use chrono::{DateTime, NaiveDate, SecondsFormat};
use vstd::prelude::*;

verus! {

/// The first millisecond that `chrono` represents.
pub const MIN_MILLIS: i64 = -8_334_601_228_800_000;

/// The last millisecond that `chrono` represents.
pub const MAX_MILLIS: i64 = 8_210_266_876_799_999;

/// Whether `chrono` has a date for the millisecond.
pub open spec fn representable(ms: int) -> bool {
    MIN_MILLIS <= ms <= MAX_MILLIS
}

/// The milliseconds that `DateTime::parse_from_rfc3339` reads.
pub uninterp spec fn rfc3339_millis(text: Seq<char>) -> Option<i64>;

/// Midnight UTC, in milliseconds, of the day that `NaiveDate::parse_from_str`
/// reads in the form year, month, day with hyphens between them.
pub uninterp spec fn day_millis(text: Seq<char>) -> Option<i64>;

/// The text of a millisecond that `DateTime::to_rfc3339_opts` writes, to the second
/// and with a `Z` for UTC.
pub uninterp spec fn rfc3339_text(ms: int) -> Seq<char>;

/// Calls `DateTime::to_rfc3339_opts` for whole seconds. The text is named
/// [`rfc3339_text`].
#[verifier::external_body]
pub(crate) fn to_rfc3339(ms: i64) -> (r: String)
    requires
        representable(ms as int),
    ensures
        r@ == rfc3339_text(ms as int),
{
    let date = DateTime::from_timestamp_millis(ms);
    date.map(|d| d.to_rfc3339_opts(SecondsFormat::Secs, true)).unwrap_or_default()
}

/// Calls `DateTime::parse_from_rfc3339` and takes the milliseconds, which are
/// named [`rfc3339_millis`].
#[verifier::external_body]
pub(crate) fn parse_rfc3339(text: &str) -> (r: Option<i64>)
    ensures
        r == rfc3339_millis(text@),
{
    DateTime::parse_from_rfc3339(text).ok().map(|d| d.timestamp_millis())
}

/// Calls `NaiveDate::parse_from_str` with the format `%Y-%m-%d` and takes the
/// milliseconds of midnight UTC, which are named [`day_millis`].
#[verifier::external_body]
pub(crate) fn parse_day(text: &str) -> (r: Option<i64>)
    ensures
        r == day_millis(text@),
{
    let day = NaiveDate::parse_from_str(text, "%Y-%m-%d").ok();
    day.and_then(|d| d.and_hms_opt(0, 0, 0)).map(|d| d.and_utc().timestamp_millis())
}

/// Calls `DateTime::from_timestamp_millis` and keeps whether there is a date.
#[verifier::external_body]
pub(crate) fn has_date(ms: i64) -> (r: bool)
    ensures
        r == representable(ms as int),
{
    DateTime::from_timestamp_millis(ms).is_some()
}

/// What [`parse_ts_to_millis`] returns.
pub open spec fn ts_millis(text: Seq<char>) -> i64 {
    match rfc3339_millis(text) {
        Some(ms) => ms,
        None => match day_millis(text) {
            Some(ms) => ms,
            None => 0,
        },
    }
}

/// A time is read as what it says, a plain date as its midnight, and anything else
/// as 0.
pub proof fn times_come_before_dates(text: Seq<char>)
    ensures
        rfc3339_millis(text) matches Some(ms) ==> ts_millis(text) == ms,
        rfc3339_millis(text) is None ==> (day_millis(text) matches Some(ms) ==> ts_millis(text)
            == ms),
        rfc3339_millis(text) is None && day_millis(text) is None ==> ts_millis(text) == 0,
{
}

/// The first of two readings that succeeded, or 0.
pub fn first_reading(time: Option<i64>, day: Option<i64>) -> (r: i64)
    ensures
        time matches Some(ms) ==> r == ms,
        time is None ==> (day matches Some(ms) ==> r == ms),
        time is None && day is None ==> r == 0,
{
    if let Some(ms) = time {
        return ms;
    }
    if let Some(ms) = day {
        return ms;
    }
    0
}

/// Reads an RFC 3339 time, or else a plain date taken at midnight UTC, or else
/// gives 0.
pub fn parse_ts_to_millis(text: &str) -> (r: i64)
    ensures
        r == ts_millis(text@),
{
    let time = parse_rfc3339(text);
    let day = parse_day(text);
    first_reading(time, day)
}

/// Whether `close` lies after `now` and at most `window` milliseconds later.
pub open spec fn closes_within(close: int, now: int, window: int) -> bool {
    now < close <= now + window
}

/// Whether `close_ms` lies after `now_ms` and at most `window_ms` later.
pub fn is_closing(close_ms: i64, now_ms: i64, window_ms: u32) -> (r: bool)
    ensures
        r == closes_within(close_ms as int, now_ms as int, window_ms as int),
{
    now_ms < close_ms && close_ms as i128 - now_ms as i128 <= window_ms as i128
}

} // verus!
