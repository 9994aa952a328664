//! Time and fresh identifiers: the two inputs of the services that come
//! from outside the program's data.

use vstd::prelude::*;

use crate::ids::EntityId;

verus! {

/// `chrono::Utc::now`, rendered as RFC 3339 with milliseconds
/// (`2026-05-01T09:30:00.000Z`). The value depends on the time of the
/// call; nothing is promised of it.
#[verifier::external_body]
pub(crate) fn now_stamp() -> String {
    chrono::Utc::now().to_rfc3339_opts(chrono::SecondsFormat::Millis, true)
}

/// `chrono::Local::now` formatted as `%Y-%m-%d`: today's date in the
/// machine's time zone. Depends on the time and the machine; nothing is
/// promised of it.
#[verifier::external_body]
pub(crate) fn local_today() -> String {
    chrono::Local::now().format("%Y-%m-%d").to_string()
}

/// `chrono::Local::now` formatted as `%Y-%m-%dT%H:%M:%S`: the local wall
/// clock time. Depends on the time and the machine; nothing is promised.
#[verifier::external_body]
pub(crate) fn local_now() -> String {
    chrono::Local::now().format("%Y-%m-%dT%H:%M:%S").to_string()
}

/// `chrono::Local::now` formatted as `%Y%m%d-%H%M%S`, for file names.
/// Depends on the time and the machine; nothing is promised.
#[verifier::external_body]
pub(crate) fn local_file_stamp() -> String {
    chrono::Local::now().format("%Y%m%d-%H%M%S").to_string()
}

/// `chrono::Local::now()` less `days` whole days (as a span of time, so
/// the wall clock follows the zone across a daylight-saving change),
/// formatted as `%Y-%m-%dT%H:%M:%S`; `None` when that instant is out of
/// chrono's range. Depends on the time and the machine; nothing is
/// promised of the value.
#[verifier::external_body]
pub(crate) fn local_days_ago(days: u32) -> Option<String> {
    match chrono::Local::now().checked_sub_signed(chrono::Duration::days(days as i64)) {
        Some(t) => Some(t.format("%Y-%m-%dT%H:%M:%S").to_string()),
        None => None,
    }
}

/// `chrono::Local::now().offset()` as text: the machine's current UTC
/// offset. Depends on the machine and the time; nothing is promised.
#[verifier::external_body]
pub(crate) fn local_offset() -> String {
    chrono::Local::now().offset().to_string()
}

/// `chrono::Utc::now().timestamp_millis()`: milliseconds since the Unix
/// epoch. Depends on the time of the call; nothing is promised of it.
#[verifier::external_body]
pub(crate) fn now_millis() -> i64 {
    chrono::Utc::now().timestamp_millis()
}

/// `uuid::Uuid::new_v4` as a 128-bit value: a random identifier. Nothing
/// is promised of it.
#[verifier::external_body]
pub(crate) fn new_id() -> EntityId {
    uuid::Uuid::new_v4().as_u128()
}

} // verus!
