//! The timer: a countdown held in machine integers, with the callback that
//! runs when it expires.
//!
//! Each operation that needs the time comes in two forms. The one whose name
//! ends in `_at` takes the instant as an argument and says exactly what state
//! follows. The other reads the wall clock and then does the same.
//!
//! A timer takes every duration: a negative one counts as zero, and one so
//! long that its end lies beyond the last instant of the machine is due at
//! that instant.
//!
//! What reads the wall clock (`new`, `reset`, `tick`) unwinds where the
//! system clock stands before the year 1970 or past the last year of chrono's
//! calendar. What reads the local calendar (`finish_time_formatted`) unwinds
//! where the time zone data of the machine gives no usable offset. No
//! argument brings either about.

use crate::clock::{
    local_time_of_day, wall_clock_ms, TimeOfDay, CALENDAR_REACH_MS, MAX_CLOCK_MS,
};
use crate::model::{accepted_duration, saturated, TimerState};
use crate::ratio::Ratio;
use crate::text::{countdown_string, countdown_text, time_of_day_string, time_of_day_text};
use vstd::prelude::*;

verus! {

/// The longest interval for which a timer started from the wall clock is due
/// exactly at the end of the interval. A longer one is due at the last
/// instant that a signed 64-bit integer holds.
pub const MAX_DURATION_MS: i64 = i64::MAX - MAX_CLOCK_MS;

/// The instant at which an interval of `duration_ms` that starts at `now_ms`
/// is over, or the last instant that the machine holds where that comes
/// earlier.
fn finish_instant(now_ms: i64, duration_ms: i64) -> (finish_at_ms: i64)
    requires
        duration_ms >= 0,
    ensures
        finish_at_ms == saturated(now_ms + duration_ms),
{
    let due: i128 = now_ms as i128 + duration_ms as i128;
    if due > i64::MAX as i128 {
        i64::MAX
    } else {
        due as i64
    }
}

/// A countdown timer. `on_expired` runs on the tick on which the countdown
/// expires, unless the timer has been terminated, and on no other.
///
/// Pausing is lazy: `toggle_pause` only flips the flag, and each tick of a
/// paused timer moves the finish instant to the time of the tick plus the time
/// remaining, so that a resumed timer goes on from where it was paused.
pub struct Timer<F: Fn()> {
    duration_ms: i64,
    remaining_ms: i64,
    elapsed_ms: i64,
    paused: bool,
    terminated: bool,
    finish_at_ms: i64,
    on_expired: F,
}

impl<F: Fn()> View for Timer<F> {
    type V = TimerState;

    closed spec fn view(&self) -> TimerState {
        TimerState {
            duration: self.duration_ms as int,
            remaining: self.remaining_ms as int,
            elapsed: self.elapsed_ms as int,
            paused: self.paused,
            terminated: self.terminated,
            finish_at: self.finish_at_ms as int,
        }
    }
}

impl<F: Fn()> Timer<F> {
    /// The expiry callback.
    pub closed spec fn handler(&self) -> F {
        self.on_expired
    }

    /// The state is well formed and fits the machine.
    pub open spec fn wf(&self) -> bool {
        &&& self@.wf()
        &&& self@.representable()
    }

    /// A timer for `duration_ms` milliseconds that starts at the instant
    /// `now_ms`. A negative duration counts as zero.
    pub fn new_at(duration_ms: i64, now_ms: i64, on_expired: F) -> (timer: Self)
        ensures
            timer.wf(),
            timer.handler() == on_expired,
            timer@ == TimerState::started(accepted_duration(duration_ms as int), now_ms as int),
    {
        let duration_ms: i64 = if duration_ms < 0 {
            0
        } else {
            duration_ms
        };
        Timer {
            duration_ms,
            remaining_ms: duration_ms,
            elapsed_ms: 0,
            paused: false,
            terminated: false,
            finish_at_ms: finish_instant(now_ms, duration_ms),
            on_expired,
        }
    }

    /// A timer for `duration_ms` milliseconds that starts now. A negative
    /// duration counts as zero.
    ///
    /// Unwinds where the system clock stands before the year 1970 or past
    /// the last year of chrono's calendar.
    pub fn new(duration_ms: i64, on_expired: F) -> (timer: Self)
        ensures
            timer.wf(),
            timer.handler() == on_expired,
            exists|now: int| #[trigger]
                TimerState::started(accepted_duration(duration_ms as int), now) == timer@
                    && i64::MIN <= now <= MAX_CLOCK_MS,
            timer@.duration == accepted_duration(duration_ms as int),
            timer@.remaining == accepted_duration(duration_ms as int),
            timer@.elapsed == 0,
            !timer@.paused,
            !timer@.terminated,
    {
        let now_ms = wall_clock_ms();
        let timer = Timer::new_at(duration_ms, now_ms, on_expired);
        assert(TimerState::started(accepted_duration(duration_ms as int), now_ms as int)
            == timer@);
        timer
    }

    /// Starts the countdown afresh at the instant `now_ms`, as `new_at` would
    /// have made it: running, not terminated, nothing elapsed.
    pub fn reset_at(&mut self, duration_ms: i64, now_ms: i64)
        requires
            old(self).wf(),
        ensures
            final(self).wf(),
            final(self).handler() == old(self).handler(),
            final(self)@ == old(self)@.reset(duration_ms as int, now_ms as int),
    {
        let duration_ms: i64 = if duration_ms < 0 {
            0
        } else {
            duration_ms
        };
        self.duration_ms = duration_ms;
        self.finish_at_ms = finish_instant(now_ms, duration_ms);
        self.elapsed_ms = 0;
        self.remaining_ms = duration_ms;
        self.paused = false;
        self.terminated = false;
    }

    /// Starts the countdown afresh now.
    ///
    /// Unwinds where the system clock stands before the year 1970 or past
    /// the last year of chrono's calendar.
    pub fn reset(&mut self, duration_ms: i64)
        requires
            old(self).wf(),
        ensures
            final(self).wf(),
            final(self).handler() == old(self).handler(),
            exists|now: int| #[trigger]
                old(self)@.reset(duration_ms as int, now) == final(self)@ && i64::MIN <= now
                    <= MAX_CLOCK_MS,
            final(self)@.duration == accepted_duration(duration_ms as int),
            final(self)@.remaining == accepted_duration(duration_ms as int),
            final(self)@.elapsed == 0,
            !final(self)@.paused,
            !final(self)@.terminated,
    {
        let now_ms = wall_clock_ms();
        self.reset_at(duration_ms, now_ms);
        assert(old(self)@.reset(duration_ms as int, now_ms as int) == self@);
    }

    /// Whether the state after a tick at `now_ms` fits the machine, so that
    /// `tick_at` can be called.
    pub fn can_tick_at(&self, now_ms: i64) -> (fits: bool)
        ensures
            fits == self@.tick(now_ms as int).representable(),
    {
        if self.is_expired() {
            true
        } else if self.paused {
            now_ms as i128 + self.remaining_ms as i128 <= i64::MAX as i128
        } else {
            let remaining: i128 = self.finish_at_ms as i128 - now_ms as i128;
            let elapsed: i128 = self.duration_ms as i128 - remaining;
            i64::MIN as i128 <= remaining && remaining <= i64::MAX as i128 && i64::MIN as i128
                <= elapsed && elapsed <= i64::MAX as i128
        }
    }

    /// One tick at the instant `now_ms`. Runs the expiry callback if the
    /// countdown expires on this tick and the timer has not been terminated,
    /// and returns whether it did. A terminated timer counts down like any
    /// other, in silence. The callback has to be callable only where this
    /// tick is to run it.
    pub fn tick_at(&mut self, now_ms: i64) -> (fired: bool)
        requires
            old(self).wf(),
            old(self)@.tick(now_ms as int).representable(),
            old(self)@.expires_on(now_ms as int) && !old(self)@.terminated ==> call_requires(
                old(self).handler(),
                (),
            ),
        ensures
            final(self).wf(),
            final(self).handler() == old(self).handler(),
            final(self)@ == old(self)@.tick(now_ms as int),
            fired == (old(self)@.expires_on(now_ms as int) && !old(self)@.terminated),
            fired ==> call_ensures(old(self).handler(), (), ()),
    {
        if self.is_expired() {
            return false;
        }
        if self.paused {
            self.finish_at_ms = now_ms + self.remaining_ms;
        } else {
            self.remaining_ms = self.finish_at_ms - now_ms;
            self.elapsed_ms = self.duration_ms - self.remaining_ms;
        }
        if self.is_expired() && !self.terminated {
            (self.on_expired)();
            true
        } else {
            false
        }
    }

    /// One tick at the instant that the wall clock shows. Runs the expiry
    /// callback if the countdown expires on this tick and the timer has not
    /// been terminated, and returns whether it did.
    ///
    /// A reading after which the state would not fit the machine leaves the
    /// timer as it is, and the callback does not run. The callback has to be
    /// callable only where a tick could run it: on a timer that has neither
    /// expired nor been terminated.
    ///
    /// Unwinds where the system clock stands before the year 1970 or past
    /// the last year of chrono's calendar.
    pub fn tick(&mut self) -> (fired: bool)
        requires
            old(self).wf(),
            !old(self)@.is_expired() && !old(self)@.terminated ==> call_requires(
                old(self).handler(),
                (),
            ),
        ensures
            final(self).wf(),
            final(self).handler() == old(self).handler(),
            exists|now: int|
                #![trigger old(self)@.tick(now)]
                i64::MIN <= now <= MAX_CLOCK_MS && (if old(self)@.tick(now).representable() {
                    old(self)@.tick(now) == final(self)@ && fired == (old(self)@.expires_on(now)
                        && !old(self)@.terminated)
                } else {
                    final(self)@ == old(self)@ && !fired
                }),
            fired ==> call_ensures(old(self).handler(), (), ()),
    {
        let now_ms = wall_clock_ms();
        if self.can_tick_at(now_ms) {
            let fired = self.tick_at(now_ms);
            assert(old(self)@.tick(now_ms as int) == self@);
            fired
        } else {
            assert(!old(self)@.tick(now_ms as int).representable());
            false
        }
    }

    pub fn is_expired(&self) -> (expired: bool)
        ensures
            expired == self@.is_expired(),
    {
        self.remaining_ms <= 0
    }

    /// Pauses a running timer and resumes a paused one. The times stay as
    /// they are.
    pub fn toggle_pause(&mut self)
        requires
            old(self).wf(),
        ensures
            final(self).wf(),
            final(self).handler() == old(self).handler(),
            final(self)@ == old(self)@.toggle_pause(),
    {
        self.paused = !self.paused;
    }

    /// Marks the timer as ended by the user. The times stay as they are.
    pub fn terminate(&mut self)
        requires
            old(self).wf(),
        ensures
            final(self).wf(),
            final(self).handler() == old(self).handler(),
            final(self)@ == old(self)@.terminate(),
    {
        self.terminated = true;
    }

    pub fn paused(&self) -> (paused: bool)
        ensures
            paused == self@.paused,
    {
        self.paused
    }

    pub fn terminated(&self) -> (terminated: bool)
        ensures
            terminated == self@.terminated,
    {
        self.terminated
    }

    pub fn duration_ms(&self) -> (duration: i64)
        ensures
            duration == self@.duration,
    {
        self.duration_ms
    }

    pub fn remaining_ms(&self) -> (remaining: i64)
        ensures
            remaining == self@.remaining,
    {
        self.remaining_ms
    }

    pub fn elapsed_ms(&self) -> (elapsed: i64)
        ensures
            elapsed == self@.elapsed,
    {
        self.elapsed_ms
    }

    pub fn finish_at_ms(&self) -> (finish_at: i64)
        ensures
            finish_at == self@.finish_at,
    {
        self.finish_at_ms
    }

    /// The elapsed part of the interval, between 0 and 1.
    pub fn elapsed_ratio(&self) -> (ratio: Ratio)
        ensures
            ratio@ == self@.elapsed_ratio(),
            ratio.wf(),
    {
        let made = if self.duration_ms <= 0 {
            Ratio::new(1, 1)
        } else if self.elapsed_ms <= 0 {
            Ratio::new(0, self.duration_ms)
        } else if self.elapsed_ms >= self.duration_ms {
            Ratio::new(self.duration_ms, self.duration_ms)
        } else {
            Ratio::new(self.elapsed_ms, self.duration_ms)
        };
        made.unwrap()
    }

    /// The time remaining as `HH:MM:SS`, or as `MM:SS` under an hour.
    pub fn remaining_time_formatted(&self) -> (text: String)
        ensures
            text@ == countdown_text(self@.remaining),
    {
        countdown_string(self.remaining_ms)
    }

    /// The local time of day of the finish instant as `HH:MM:SS`, or
    /// `--:--:--` where the local calendar does not reach the instant. It
    /// reaches every instant within `CALENDAR_REACH_MS` of the epoch.
    ///
    /// Unwinds where the time zone data of the machine gives no usable
    /// offset.
    pub fn finish_time_formatted(&self) -> (text: String)
        ensures
            exists|reading: Option<TimeOfDay>|
                (reading matches Some(time) ==> time.wf()) && #[trigger] time_of_day_text(reading)
                    == text@,
            -CALENDAR_REACH_MS <= self@.finish_at <= CALENDAR_REACH_MS ==> exists|time: TimeOfDay|
                time.wf() && #[trigger] time_of_day_text(Some(time)) == text@,
    {
        let reading = local_time_of_day(self.finish_at_ms);
        let text = time_of_day_string(reading);
        assert(time_of_day_text(reading) == text@);
        text
    }
}

} // verus!
