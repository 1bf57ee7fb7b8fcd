//! The wall clock and the local calendar, both taken from chrono.

use chrono::TimeZone;
use chrono::Timelike;
use vstd::prelude::*;

verus! {

/// No reading of the wall clock lies after this instant, in milliseconds
/// since the Unix epoch.
pub const MAX_CLOCK_MS: i64 = 9_000_000_000_000_000;

/// The local calendar reaches every instant that lies no further than this
/// from the Unix epoch, in milliseconds, before it or after it.
pub const CALENDAR_REACH_MS: i64 = 8_000_000_000_000_000;

/// A time of day on a 24-hour clock.
#[derive(Clone, Copy, Debug, PartialEq, Eq, Structural)]
pub struct TimeOfDay {
    pub hour: u32,
    pub minute: u32,
    pub second: u32,
}

impl TimeOfDay {
    pub open spec fn wf(self) -> bool {
        &&& self.hour < 24
        &&& self.minute < 60
        &&& self.second < 60
    }
}

/// Reads the wall clock: chrono's `Utc::now`, taken as milliseconds since the
/// Unix epoch by `DateTime::timestamp_millis`.
///
/// The call unwinds where the system clock stands before the year 1970 or
/// past the last year of chrono's calendar.
///
/// Trusted. Of the reading it claims only that it does not exceed
/// `MAX_CLOCK_MS`: chrono's calendar ends with the year 262142, which is over
/// before 8.3 * 10^15 milliseconds have passed since the epoch.
#[verifier::external_body]
pub(crate) fn wall_clock_ms() -> (now_ms: i64)
    ensures
        now_ms <= MAX_CLOCK_MS,
{
    chrono::Utc::now().timestamp_millis()
}

/// Places an instant, given in milliseconds since the Unix epoch, on the
/// local calendar with chrono's `TimeZone::timestamp_millis_opt` for `Local`,
/// and reads the hour, minute and second there with `Timelike::hour`,
/// `Timelike::minute` and `Timelike::second`. The result is `None` where
/// chrono's calendar does not reach the instant. The call unwinds where the
/// time zone data of the machine gives no usable offset.
///
/// Trusted. The time of day depends on the time zone of the machine, so the
/// contract claims only what chrono documents of every reading: an hour from
/// 0 to 23, a minute from 0 to 59, and a second from 0 to 59 (never 60, a
/// leap second included). It also claims that there is a reading for every
/// instant within `CALENDAR_REACH_MS` of the epoch: chrono's calendar runs
/// from the year -262143 to the year 262142, which is from about
/// -8.33 * 10^15 to about 8.21 * 10^15 milliseconds, and for an instant
/// within it `timestamp_millis_opt` gives a single date and time.
#[verifier::external_body]
pub(crate) fn local_time_of_day(instant_ms: i64) -> (reading: Option<TimeOfDay>)
    ensures
        reading matches Some(time) ==> time.wf(),
        -CALENDAR_REACH_MS <= instant_ms <= CALENDAR_REACH_MS ==> reading is Some,
{
    match chrono::Local.timestamp_millis_opt(instant_ms).single() {
        Some(at) => Some(TimeOfDay { hour: at.hour(), minute: at.minute(), second: at.second() }),
        None => None,
    }
}

} // verus!
