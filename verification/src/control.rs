//! The decisions of the loop that drives a timer: when it ends, and what a
//! key does. The loop itself ticks the timer, asks `loop_status`, draws a
//! frame, waits up to `POLL_TIMEOUT_MS` for one key, and hands that key to
//! `dispatch_key`.

use crate::clock::MAX_CLOCK_MS;
use crate::model::{Event, TimerState};
use crate::timer::{Timer, MAX_DURATION_MS};
use vstd::prelude::*;

verus! {

/// The longest that the loop waits for a key, in milliseconds.
pub const POLL_TIMEOUT_MS: u64 = 10;

/// The interval of a timer for which none is given, in minutes.
pub const DEFAULT_DURATION_MINUTES: i64 = 20;

pub const MS_PER_MINUTE: i64 = 60_000;

/// Why an interval given in minutes is refused.
#[derive(Clone, Copy, Debug, PartialEq, Eq, Structural)]
pub enum ConfigError {
    NegativeDuration,
    DurationTooLong,
}

impl ConfigError {
    pub fn message(&self) -> (text: &'static str)
        ensures
            text@ == (match self {
                ConfigError::NegativeDuration => "the duration must not be negative"@,
                ConfigError::DurationTooLong => "the duration is too long"@,
            }),
    {
        match self {
            ConfigError::NegativeDuration => "the duration must not be negative",
            ConfigError::DurationTooLong => "the duration is too long",
        }
    }
}

/// An interval given in minutes, in milliseconds. An interval is refused as
/// too long where a timer started now would not be due exactly at its end.
pub fn duration_ms_from_minutes(minutes: i64) -> (duration: Result<i64, ConfigError>)
    ensures
        match duration {
            Ok(ms) => 0 <= minutes && ms == minutes * MS_PER_MINUTE && ms <= MAX_DURATION_MS,
            Err(ConfigError::NegativeDuration) => minutes < 0,
            Err(ConfigError::DurationTooLong) => minutes >= 0 && minutes * MS_PER_MINUTE
                > MAX_DURATION_MS,
        },
{
    if minutes < 0 {
        Err(ConfigError::NegativeDuration)
    } else if minutes > MAX_DURATION_MS / MS_PER_MINUTE {
        Err(ConfigError::DurationTooLong)
    } else {
        Ok(minutes * MS_PER_MINUTE)
    }
}

/// Whether the loop goes on, and if not, why it ends.
#[derive(Clone, Copy, Debug, PartialEq, Eq, Structural)]
pub enum LoopStatus {
    Continue,
    /// The user has ended the timer. This comes before expiry.
    Terminated,
    /// The interval has run out.
    Expired,
}

pub open spec fn status_of(s: TimerState) -> LoopStatus {
    if s.terminated {
        LoopStatus::Terminated
    } else if s.is_expired() {
        LoopStatus::Expired
    } else {
        LoopStatus::Continue
    }
}

/// What the loop does after a tick.
pub fn loop_status<F: Fn()>(timer: &Timer<F>) -> (status: LoopStatus)
    ensures
        status == status_of(timer@),
{
    if timer.terminated() {
        LoopStatus::Terminated
    } else if timer.is_expired() {
        LoopStatus::Expired
    } else {
        LoopStatus::Continue
    }
}

/// What a key asks for.
#[derive(Clone, Copy, Debug, PartialEq, Eq, Structural)]
pub enum Command {
    TogglePause,
    Terminate,
    Reset,
}

/// `p` pauses and resumes, `q` ends the timer, `r` starts it afresh; no other
/// key does anything.
pub open spec fn command_of(key: char) -> Option<Command> {
    if key == 'p' {
        Some(Command::TogglePause)
    } else if key == 'q' {
        Some(Command::Terminate)
    } else if key == 'r' {
        Some(Command::Reset)
    } else {
        None
    }
}

pub fn command_for_key(key: char) -> (command: Option<Command>)
    ensures
        command == command_of(key),
{
    if key == 'p' {
        Some(Command::TogglePause)
    } else if key == 'q' {
        Some(Command::Terminate)
    } else if key == 'r' {
        Some(Command::Reset)
    } else {
        None
    }
}

/// The event that a command is to a timer, where a reset is to `duration`
/// milliseconds and happens at `now`.
pub open spec fn event_of(command: Command, duration: int, now: int) -> Event {
    match command {
        Command::TogglePause => Event::TogglePause,
        Command::Terminate => Event::Terminate,
        Command::Reset => Event::Reset { duration, now },
    }
}

/// Does to the timer what the key asks for; a reset is to `duration_ms`
/// milliseconds, from now.
///
/// A reset reads the wall clock, and unwinds where the system clock stands
/// before the year 1970 or past the last year of chrono's calendar.
pub fn dispatch_key<F: Fn()>(timer: &mut Timer<F>, key: char, duration_ms: i64)
    requires
        old(timer).wf(),
    ensures
        final(timer).wf(),
        final(timer).handler() == old(timer).handler(),
        match command_of(key) {
            Some(command) => exists|now: int| #[trigger]
                old(timer)@.step(event_of(command, duration_ms as int, now)) == final(timer)@
                    && i64::MIN <= now <= MAX_CLOCK_MS,
            None => final(timer)@ == old(timer)@,
        },
{
    match command_for_key(key) {
        Some(Command::TogglePause) => {
            timer.toggle_pause();
            assert(old(timer)@.step(event_of(Command::TogglePause, duration_ms as int, 0))
                == timer@);
        },
        Some(Command::Terminate) => {
            timer.terminate();
            assert(old(timer)@.step(event_of(Command::Terminate, duration_ms as int, 0))
                == timer@);
        },
        Some(Command::Reset) => {
            timer.reset(duration_ms);
            let ghost now = choose|now: int| #[trigger]
                old(timer)@.reset(duration_ms as int, now) == timer@ && i64::MIN <= now
                    <= MAX_CLOCK_MS;
            assert(old(timer)@.step(event_of(Command::Reset, duration_ms as int, now))
                == timer@);
        },
        None => {},
    }
}

} // verus!
