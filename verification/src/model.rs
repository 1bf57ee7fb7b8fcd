//! The countdown as mathematics: its state, the events that move it, and the
//! state that each event leads to. Every quantity is an unbounded integer
//! number of milliseconds; instants count from the Unix epoch.

use vstd::prelude::*;

verus! {

/// The state of a countdown.
pub struct TimerState {
    /// The length of the interval.
    pub duration: int,
    /// The time left until expiry, as of the last tick that moved the countdown.
    pub remaining: int,
    /// The time gone by since the start, as of the same tick.
    pub elapsed: int,
    pub paused: bool,
    pub terminated: bool,
    /// The anchor: the instant at which the countdown is due to expire.
    pub finish_at: int,
}

/// What can happen to a countdown.
pub enum Event {
    /// The clock is read and shows `now`.
    Tick { now: int },
    TogglePause,
    Terminate,
    /// The countdown starts afresh at `now`, with a new interval.
    Reset { duration: int, now: int },
}

/// The interval that a timer takes for a requested one: a negative request
/// counts as zero.
pub open spec fn accepted_duration(requested: int) -> int {
    if requested < 0 {
        0
    } else {
        requested
    }
}

/// The instant nearest to `instant` that a signed 64-bit integer holds.
pub open spec fn saturated(instant: int) -> int {
    if instant > i64::MAX {
        i64::MAX as int
    } else if instant < i64::MIN {
        i64::MIN as int
    } else {
        instant
    }
}

impl TimerState {
    /// A countdown of `duration` milliseconds that starts at `now`: running,
    /// nothing elapsed, due at `now + duration`. Where that instant lies
    /// beyond what a signed 64-bit integer holds, the countdown is due at
    /// the last instant that one does hold.
    pub open spec fn started(duration: int, now: int) -> TimerState {
        TimerState {
            duration,
            remaining: duration,
            elapsed: 0,
            paused: false,
            terminated: false,
            finish_at: saturated(now + duration),
        }
    }

    /// The interval is not negative, and the time elapsed and the time
    /// remaining add up to it.
    pub open spec fn wf(self) -> bool {
        &&& self.duration >= 0
        &&& self.elapsed + self.remaining == self.duration
    }

    /// Every quantity fits a signed 64-bit integer.
    pub open spec fn representable(self) -> bool {
        &&& i64::MIN <= self.duration <= i64::MAX
        &&& i64::MIN <= self.remaining <= i64::MAX
        &&& i64::MIN <= self.elapsed <= i64::MAX
        &&& i64::MIN <= self.finish_at <= i64::MAX
    }

    pub open spec fn is_expired(self) -> bool {
        self.remaining <= 0
    }

    /// One reading of the clock. An expired countdown stays as it is. A paused
    /// one keeps its remaining time and moves its anchor to `now + remaining`,
    /// so that it goes on from there once resumed. A running one measures
    /// its remaining time against the anchor.
    pub open spec fn tick(self, now: int) -> TimerState {
        if self.is_expired() {
            self
        } else if self.paused {
            TimerState { finish_at: now + self.remaining, ..self }
        } else {
            TimerState {
                remaining: self.finish_at - now,
                elapsed: self.duration - (self.finish_at - now),
                ..self
            }
        }
    }

    /// The tick at `now` is the one on which the countdown expires: it was
    /// not expired before the tick and is after it.
    pub open spec fn expires_on(self, now: int) -> bool {
        !self.is_expired() && self.tick(now).is_expired()
    }

    pub open spec fn toggle_pause(self) -> TimerState {
        TimerState { paused: !self.paused, ..self }
    }

    pub open spec fn terminate(self) -> TimerState {
        TimerState { terminated: true, ..self }
    }

    pub open spec fn reset(self, duration: int, now: int) -> TimerState {
        TimerState::started(accepted_duration(duration), now)
    }

    /// The elapsed part of the interval as a fraction `(numerator,
    /// denominator)`, held between 0 and 1. An interval of length zero has
    /// elapsed entirely.
    pub open spec fn elapsed_ratio(self) -> (int, int) {
        if self.duration <= 0 {
            (1, 1)
        } else if self.elapsed <= 0 {
            (0, self.duration)
        } else if self.elapsed >= self.duration {
            (self.duration, self.duration)
        } else {
            (self.elapsed, self.duration)
        }
    }

    /// The state after one event.
    pub open spec fn step(self, event: Event) -> TimerState {
        match event {
            Event::Tick { now } => self.tick(now),
            Event::TogglePause => self.toggle_pause(),
            Event::Terminate => self.terminate(),
            Event::Reset { duration, now } => self.reset(duration, now),
        }
    }

    /// The event is a tick on which the countdown of a timer that has not
    /// been terminated expires: the one occasion on which the expiry callback
    /// runs.
    pub open spec fn fires(self, event: Event) -> bool {
        event matches Event::Tick { now } && !self.terminated && self.expires_on(now)
    }

    /// The state after a sequence of events, first to last.
    pub open spec fn run(self, events: Seq<Event>) -> TimerState
        decreases events.len(),
    {
        if events.len() == 0 {
            self
        } else {
            self.run(events.drop_last()).step(events.last())
        }
    }

    /// How often the expiry callback runs over a sequence of events.
    pub open spec fn fire_count(self, events: Seq<Event>) -> nat
        decreases events.len(),
    {
        if events.len() == 0 {
            0
        } else {
            let before = self.run(events.drop_last());
            let earlier = self.fire_count(events.drop_last());
            if before.fires(events.last()) {
                earlier + 1
            } else {
                earlier
            }
        }
    }
}

/// Every event of the sequence is a tick.
pub open spec fn only_ticks(events: Seq<Event>) -> bool {
    forall|i: int| 0 <= i < events.len() ==> events[i] is Tick
}

/// No event of the sequence is a reset.
pub open spec fn no_reset(events: Seq<Event>) -> bool {
    forall|i: int| 0 <= i < events.len() ==> !(events[i] is Reset)
}

} // verus!
