//! Creation times: whole seconds since 1 January 1970, 00:00:00 UTC, within
//! the span of the calendar that `chrono` can name, and how such a second
//! reads on a clock that runs at an offset from UTC.

use chrono::{DateTime, FixedOffset, Local, Utc};
use vstd::prelude::*;

verus! {

/// The first second of the calendar: 1 January of the year -262143,
/// 00:00:00 UTC, which is the timestamp of chrono's `DateTime::MIN_UTC`.
pub const EARLIEST_SECOND: i64 = -8_334_601_228_800;

/// The last second of the calendar: 31 December of the year 262142,
/// 23:59:59 UTC, which is the timestamp of chrono's `DateTime::MAX_UTC`.
pub const LATEST_SECOND: i64 = 8_210_266_876_799;

/// Whether `seconds` names an instant of the calendar.
pub open spec fn is_calendar_second(seconds: int) -> bool {
    EARLIEST_SECOND <= seconds <= LATEST_SECOND
}

/// Whether a clock can run `offset` seconds ahead of UTC: less than a day,
/// ahead or behind.
pub open spec fn is_zone_offset(offset: int) -> bool {
    -86_400 < offset < 86_400
}

/// Whether each of the offsets is one that a clock can run at.
pub open spec fn are_zone_offsets(offsets: Seq<int>) -> bool {
    forall|i: int| 0 <= i < offsets.len() ==> is_zone_offset(#[trigger] offsets[i])
}

/// Whether `seconds` names an instant of the calendar.
pub fn in_calendar(seconds: i64) -> (inside: bool)
    ensures
        inside == is_calendar_second(seconds as int),
{
    EARLIEST_SECOND <= seconds && seconds <= LATEST_SECOND
}

/// The current second, read with `chrono::Utc::now` and
/// `DateTime::timestamp`.
///
/// Trusted: `Utc::now` makes its instant with `DateTime::from_timestamp`,
/// and every instant that chrono makes lies between `MIN_UTC` and `MAX_UTC`,
/// so the second that comes back is one of the calendar. Which one it is
/// depends on the clock. Where the clock of the machine stands before 1970,
/// `Utc::now` stops the program.
#[verifier::external_body]
pub(crate) fn current_second() -> (seconds: i64)
    ensures
        is_calendar_second(seconds as int),
{
    Utc::now().timestamp()
}

/// How many seconds the clock of this machine's time zone runs ahead of UTC
/// at the instant `seconds`: the instant comes from
/// `DateTime::from_timestamp`, goes to the local zone with
/// `DateTime::with_timezone` and `chrono::Local`, and its offset is read
/// with `FixedOffset::local_minus_utc`.
///
/// Trusted: `from_timestamp` gives an instant for the seconds of the
/// calendar and for no others, so there is an offset for exactly those, and
/// chrono keeps every offset within a day of UTC. Which offset it is depends
/// on the time zone that the machine is set to. Where the zone data of the
/// machine gives an offset of a whole day or more, `Local` stops the
/// program.
#[verifier::external_body]
pub(crate) fn local_offset(seconds: i64) -> (offset: Option<i32>)
    ensures
        match offset {
            Some(ahead) => is_calendar_second(seconds as int) && is_zone_offset(ahead as int),
            None => !is_calendar_second(seconds as int),
        },
{
    match DateTime::<Utc>::from_timestamp(seconds, 0) {
        Some(instant) => Some(instant.with_timezone(&Local).offset().local_minus_utc()),
        None => None,
    }
}

/// What chrono writes, with the pattern `%F %H:%M`, for the instant
/// `seconds` on a clock that runs `offset` seconds ahead of UTC: the date
/// and the minute of the day on that clock. For the years 0 to 9999 that
/// reads `YYYY-MM-DD HH:MM`; for a year outside them chrono writes a sign
/// and four digits or more.
pub uninterp spec fn minute_stamp(seconds: int, offset: int) -> Seq<char>;

/// Writes the minute of `seconds` on a clock that runs `offset` seconds
/// ahead of UTC: the instant comes from `DateTime::from_timestamp`, the
/// clock from `FixedOffset::east_opt`, and `DateTime::with_timezone` and
/// `DateTime::format` with the pattern `%F %H:%M` write it.
///
/// Trusted: `from_timestamp` gives an instant for the seconds of the
/// calendar and for no others, `east_opt` a clock for the offsets within a
/// day of UTC and for no others, and what is written is a function of the
/// instant and the offset alone, named `minute_stamp`.
#[verifier::external_body]
pub(crate) fn minute_stamp_at(seconds: i64, offset: i32) -> (stamp: Option<String>)
    ensures
        match stamp {
            Some(written) => is_calendar_second(seconds as int) && is_zone_offset(offset as int)
                && written@ == minute_stamp(seconds as int, offset as int),
            None => !(is_calendar_second(seconds as int) && is_zone_offset(offset as int)),
        },
{
    match (DateTime::<Utc>::from_timestamp(seconds, 0), FixedOffset::east_opt(offset)) {
        (Some(instant), Some(clock)) => {
            Some(instant.with_timezone(&clock).format("%F %H:%M").to_string())
        },
        _ => None,
    }
}

} // verus!
