//! Time, counted in whole seconds since the Unix epoch, and its RFC 3339
//! text form.

use vstd::prelude::*;

verus! {

/// The instant that an RFC 3339 date-and-time text names, in seconds since
/// the Unix epoch, or none where the text is not such a date and time.
pub uninterp spec fn rfc3339_seconds(text: Seq<char>) -> Option<i64>;

/// The RFC 3339 text, in UTC, of the instant `seconds` after the Unix
/// epoch, or none where the calendar in use cannot represent it.
pub uninterp spec fn rfc3339_text(seconds: i64) -> Option<Seq<char>>;

/// Reads the clock with `chrono::Utc::now` and gives the seconds since the
/// Unix epoch with `DateTime::timestamp`. Nothing is claimed of the value.
/// The clock must not stand before the epoch.
#[verifier::external_body]
pub(crate) fn now_seconds() -> i64 {
    chrono::Utc::now().timestamp()
}

/// Parses with `chrono::DateTime::parse_from_rfc3339` and reduces the
/// result to its `timestamp`. The contract claims only that the outcome is
/// a function of the text.
#[verifier::external_body]
pub(crate) fn parse_rfc3339(text: &str) -> (r: Option<i64>)
    ensures
        r == rfc3339_seconds(text@),
{
    match chrono::DateTime::parse_from_rfc3339(text) {
        Ok(instant) => Some(instant.timestamp()),
        Err(_) => None,
    }
}

/// Builds the instant with `chrono::DateTime::from_timestamp` and writes it
/// with `DateTime::to_rfc3339`. The contract claims only that the outcome is
/// a function of the number of seconds.
#[verifier::external_body]
pub(crate) fn format_rfc3339(seconds: i64) -> (r: Option<String>)
    ensures
        match r {
            Some(text) => rfc3339_text(seconds) == Some(text@),
            None => rfc3339_text(seconds) is None,
        },
{
    match chrono::DateTime::from_timestamp(seconds, 0) {
        Some(instant) => Some(instant.to_rfc3339()),
        None => None,
    }
}

/// Whether `instant` lies within `window` seconds of `now`, the ends
/// included.
pub open spec fn within_window(instant: int, now: int, window: int) -> bool {
    now - window <= instant <= now + window
}

/// Tests whether `instant` lies within `window` seconds of `now`.
pub fn is_within_window(instant: i64, now: i64, window: i64) -> (b: bool)
    ensures
        b == within_window(instant as int, now as int, window as int),
{
    let t = instant as i128;
    let n = now as i128;
    let w = window as i128;
    n - w <= t && t <= n + w
}

/// Whether the text `timestamp` names an instant within `window` seconds
/// of `now`. A text that names no instant is never recent.
pub open spec fn recent(timestamp: Seq<char>, now: int, window: int) -> bool {
    match rfc3339_seconds(timestamp) {
        Some(instant) => within_window(instant as int, now, window),
        None => false,
    }
}

/// Tests whether the RFC 3339 text `timestamp` names an instant within
/// `window` seconds of `now`.
pub fn is_recent_at(timestamp: &str, now: i64, window: i64) -> (b: bool)
    ensures
        b == recent(timestamp@, now as int, window as int),
{
    match parse_rfc3339(timestamp) {
        Some(instant) => is_within_window(instant, now, window),
        None => false,
    }
}

/// Tests whether the RFC 3339 text `dt_str` names an instant within
/// `duration` seconds of the present. Whatever the clock says, a text that
/// names no instant is rejected.
pub fn is_recent_datetime(dt_str: &str, duration: i64) -> (b: bool)
    ensures
        exists|now: i64| b == recent(dt_str@, now as int, duration as int),
        rfc3339_seconds(dt_str@) is None ==> !b,
{
    let now = now_seconds();
    is_recent_at(dt_str, now, duration)
}

/// Writes the instant `seconds` after the Unix epoch as RFC 3339 text, or
/// nothing where the calendar cannot represent it.
pub fn time_to_json(seconds: i64) -> (r: Option<String>)
    ensures
        match r {
            Some(text) => rfc3339_text(seconds) == Some(text@),
            None => rfc3339_text(seconds) is None,
        },
{
    format_rfc3339(seconds)
}

} // verus!
