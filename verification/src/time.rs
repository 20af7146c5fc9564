//! The simulator clock: correcting the reported in-game time by the request's latency.

use vstd::prelude::*;

use chrono::{NaiveTime, TimeDelta, Timelike};

verus! {

/// Nanoseconds in a second.
pub const NANOS_PER_SECOND: u32 = 1_000_000_000;

/// Seconds in a day.
pub const SECONDS_PER_DAY: u32 = 86_400;

/// Nanoseconds in a day.
pub open spec fn nanos_per_day() -> int {
    SECONDS_PER_DAY as int * NANOS_PER_SECOND as int
}

/// A time of day, as seconds since midnight and nanoseconds; the nanoseconds reach
/// into a second second only during a leap second, at the end of a minute.
#[derive(Debug, Clone, Copy, PartialEq, Eq, Structural)]
pub struct TimeOfDay {
    pub seconds: u32,
    pub nanos: u32,
}

impl TimeOfDay {
    /// The time of day is one that `chrono::NaiveTime` can hold.
    pub open spec fn valid(self) -> bool {
        &&& self.seconds < SECONDS_PER_DAY
        &&& self.nanos < 2 * NANOS_PER_SECOND
        &&& self.nanos >= NANOS_PER_SECOND ==> self.seconds % 60 == 59
    }

    /// Whether the time lies in a leap second.
    pub open spec fn is_leap(self) -> bool {
        self.nanos >= NANOS_PER_SECOND
    }

    /// Nanoseconds since midnight.
    pub open spec fn nanos_of_day(self) -> int {
        self.seconds as int * NANOS_PER_SECOND as int + self.nanos as int
    }
}

/// Calls `TimeDelta::nanoseconds`, divides the delta with `TimeDelta`'s `Div<i32>` (which
/// panics on a zero divisor) and reads it back with `num_nanoseconds`. Claims, for the
/// divisor 2, that the result is the delta halved and rounded down: `checked_div` halves
/// the whole seconds and the non-negative nanoseconds separately and carries the odd
/// second as half a billion nanoseconds, which is exact. Other divisors are not claimed.
#[verifier::external_body]
fn delta_div(nanos: i64, divisor: i32) -> (r: Option<i64>)
    requires
        divisor != 0,
    ensures
        divisor == 2 ==> r == Some((nanos as int / 2) as i64),
{
    (TimeDelta::nanoseconds(nanos) / divisor).num_nanoseconds()
}

/// The whole seconds of the signed duration `nanos`, rounded toward zero.
pub open spec fn whole_seconds(nanos: int) -> int {
    if nanos >= 0 {
        nanos / NANOS_PER_SECOND as int
    } else {
        -((-nanos) / NANOS_PER_SECOND as int)
    }
}

/// The rest of the signed duration `nanos` below whole seconds; it has the sign of
/// `nanos`.
pub open spec fn sub_second_nanos(nanos: int) -> int {
    nanos - whole_seconds(nanos) * NANOS_PER_SECOND as int
}

/// `moved` is `time` moved back by `delta` nanoseconds, wrapped around midnight. A time
/// outside a leap second moves by `delta` exactly. A time inside a leap second stays in
/// it where less than a whole second is added without leaving it; otherwise the leap
/// second counts as the second before it where time moves forward, and as the second
/// after it where time moves back by a whole second or more.
pub open spec fn moved_back(time: TimeOfDay, delta: int, moved: TimeOfDay) -> bool {
    let s = whole_seconds(-delta);
    let f = sub_second_nanos(-delta);
    &&& moved.valid()
    &&& if !time.is_leap() {
        !moved.is_leap() && moved.nanos_of_day() == (time.nanos_of_day() - delta)
            % nanos_per_day()
    } else if s == 0 && (f <= 0 || time.nanos + f < 2 * NANOS_PER_SECOND) {
        moved.seconds == time.seconds && moved.nanos == time.nanos + f
    } else if s > 0 || f > 0 {
        !moved.is_leap() && moved.nanos_of_day() == (time.nanos_of_day()
            - NANOS_PER_SECOND as int - delta) % nanos_per_day()
    } else {
        !moved.is_leap() && moved.nanos_of_day() == (time.nanos_of_day() - delta)
            % nanos_per_day()
    }
}

/// Calls `NaiveTime::from_num_seconds_from_midnight_opt`, subtracts
/// `TimeDelta::nanoseconds(delta)` with `NaiveTime`'s `Sub<TimeDelta>` and reads the
/// result back with `Timelike`. Claims `moved_back`: the subtraction adds the negated
/// delta through `overflowing_add_signed`, which splits it into whole seconds rounded
/// toward zero and the nanoseconds left over, handles a leap second by the three cases
/// that `moved_back` lists, and wraps the seconds around midnight.
#[verifier::external_body]
fn time_minus(time: TimeOfDay, delta: i64) -> (r: TimeOfDay)
    requires
        time.valid(),
    ensures
        moved_back(time, delta as int, r),
{
    let t = NaiveTime::from_num_seconds_from_midnight_opt(time.seconds, time.nanos).unwrap();
    let moved = t - TimeDelta::nanoseconds(delta);
    TimeOfDay { seconds: moved.num_seconds_from_midnight(), nanos: moved.nanosecond() }
}

/// The in-game time that StellwerkSim reported, corrected for the latency of the request:
/// `elapsed` is the request's start minus its end, in nanoseconds (not positive), and
/// half of it, rounded down, is taken off the reported time, so that the time moves
/// forward by half the round trip.
pub fn latency_corrected_time(reported: TimeOfDay, elapsed: i64) -> (r: TimeOfDay)
    requires
        reported.valid(),
    ensures
        moved_back(reported, elapsed as int / 2, r),
{
    let half = delta_div(elapsed, 2);
    time_minus(reported, half.unwrap())
}

} // verus!
