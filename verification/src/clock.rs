//! Wall-clock time as the decision engine sees it: plain numbers, no zone
//! arithmetic.

use chrono::{Datelike, Timelike};
use vstd::prelude::*;

verus! {

/// A calendar date in the local time zone.
#[derive(Clone, Copy, Debug, PartialEq, Eq, Structural)]
pub struct LocalDate {
    pub year: i32,
    /// 1 for January to 12 for December.
    pub month: u32,
    /// Day of the month, from 1.
    pub day: u32,
}

/// One instant: its distance from the Unix epoch, and how a local wall clock
/// shows it.
#[derive(Clone, Copy, Debug, PartialEq, Eq, Structural)]
pub struct LocalTime {
    /// Milliseconds since 1970-01-01T00:00:00Z.
    pub epoch_millis: i64,
    /// The date on the local calendar.
    pub date: LocalDate,
    /// Hour on the local clock, 0 to 23.
    pub hour: u32,
    pub minute: u32,
    pub second: u32,
}

/// The length of a minute in milliseconds.
pub const MILLIS_PER_MINUTE: u64 = 60_000;

impl LocalDate {
    /// Month and day lie in the ranges a calendar can show.
    pub open spec fn valid(&self) -> bool {
        1 <= self.month <= 12 && 1 <= self.day <= 31
    }
}

impl LocalTime {
    /// Every wall-clock field lies in the range a clock can show.
    pub open spec fn valid(&self) -> bool {
        self.date.valid() && self.hour < 24 && self.minute < 60 && self.second < 60
    }
}

/// Reads the system clock through `chrono::Local::now` and copies out the
/// fields of the result (`timestamp_millis`, `year`, `month`, `day`, `hour`,
/// `minute`, `second`). Nothing is claimed about which instant comes back,
/// only the field ranges that chrono documents for its accessors. chrono
/// panics if the system clock reads earlier than 1970.
#[verifier::external_body]
pub(crate) fn local_now() -> (now: LocalTime)
    ensures
        now.valid(),
{
    let t = chrono::Local::now();
    LocalTime {
        epoch_millis: t.timestamp_millis(),
        date: LocalDate { year: t.year(), month: t.month(), day: t.day() },
        hour: t.hour(),
        minute: t.minute(),
        second: t.second(),
    }
}

/// Whether at least `minutes` minutes lie between `earlier` and `later`,
/// both in epoch milliseconds. A `later` that is before `earlier`, as after
/// the clock was set back, is no time elapsed at all.
pub open spec fn minutes_elapsed(earlier: i64, later: i64, minutes: u64) -> bool {
    later - earlier >= minutes * MILLIS_PER_MINUTE
}

/// Whether a repeat alert is allowed again: always when no earlier alert is
/// on record, otherwise once the cooldown has run out.
pub open spec fn cooldown_over(last_alert: Option<i64>, now_millis: i64, cooldown_minutes: u64) -> bool {
    match last_alert {
        None => true,
        Some(at) => minutes_elapsed(at, now_millis, cooldown_minutes),
    }
}

/// Decides whether the cooldown since `last_alert` has run out at `now_millis`.
pub fn is_cooldown_over(last_alert: Option<i64>, now_millis: i64, cooldown_minutes: u64) -> (over: bool)
    ensures
        over == cooldown_over(last_alert, now_millis, cooldown_minutes),
{
    match last_alert {
        None => true,
        Some(at) => {
            let elapsed: i128 = now_millis as i128 - at as i128;
            assert(cooldown_minutes * MILLIS_PER_MINUTE <= u64::MAX * 60_000);
            let needed: i128 = cooldown_minutes as i128 * MILLIS_PER_MINUTE as i128;
            elapsed >= needed
        },
    }
}

} // verus!
