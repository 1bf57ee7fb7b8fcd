//! What holds of every countdown, proved over the model.

use crate::clock::MAX_CLOCK_MS;
use crate::model::{accepted_duration, no_reset, only_ticks, Event, TimerState};
use crate::timer::MAX_DURATION_MS;
use crate::ratio::within_unit;
use vstd::prelude::*;

verus! {

/// A timer made for a duration that is not negative has the whole of it
/// remaining and nothing elapsed.
pub proof fn fresh_timer_has_whole_interval(duration: int, now: int)
    requires
        duration >= 0,
    ensures
        TimerState::started(accepted_duration(duration), now).remaining == duration,
        TimerState::started(accepted_duration(duration), now).elapsed == 0,
        TimerState::started(accepted_duration(duration), now).wf(),
{
}

/// A timer made at a reading of the wall clock, for an interval up to
/// `MAX_DURATION_MS`, is due exactly at the end of the interval.
pub proof fn fresh_timer_is_due_at_end_of_interval(duration: int, now: int)
    requires
        0 <= duration <= MAX_DURATION_MS,
        i64::MIN <= now <= MAX_CLOCK_MS,
    ensures
        TimerState::started(accepted_duration(duration), now).finish_at == now + duration,
{
}

/// Whatever happens to a timer, the time elapsed and the time remaining keep
/// adding up to the interval.
pub proof fn run_keeps_well_formed(s: TimerState, events: Seq<Event>)
    requires
        s.wf(),
    ensures
        s.run(events).wf(),
    decreases events.len(),
{
    if events.len() > 0 {
        run_keeps_well_formed(s, events.drop_last());
    }
}

/// Ticks of a paused timer, however many and whenever they come, leave the
/// time remaining and the time elapsed as they were.
pub proof fn paused_ticks_keep_times(s: TimerState, events: Seq<Event>)
    requires
        s.paused,
        only_ticks(events),
    ensures
        s.run(events).remaining == s.remaining,
        s.run(events).elapsed == s.elapsed,
        s.run(events).duration == s.duration,
        s.run(events).paused,
    decreases events.len(),
{
    if events.len() > 0 {
        paused_ticks_keep_times(s, events.drop_last());
    }
}

/// A timer that is paused, ticked any number of times and resumed has the
/// time remaining that it had when it was paused.
pub proof fn pause_and_resume_keep_times(s: TimerState, events: Seq<Event>)
    requires
        !s.paused,
        only_ticks(events),
    ensures
        s.toggle_pause().run(events).toggle_pause().remaining == s.remaining,
        s.toggle_pause().run(events).toggle_pause().elapsed == s.elapsed,
        !s.toggle_pause().run(events).toggle_pause().paused,
{
    paused_ticks_keep_times(s.toggle_pause(), events);
}

/// A timer that is resumed after a tick at `paused_at` goes on from where it
/// was paused: a tick `delay` milliseconds later finds the time remaining
/// shorter by `delay`, however long the pause had lasted before.
pub proof fn resumed_timer_goes_on(s: TimerState, paused_at: int, delay: int)
    requires
        s.wf(),
        s.paused,
        !s.is_expired(),
    ensures
        s.tick(paused_at).toggle_pause().tick(paused_at + delay).remaining == s.remaining - delay,
        s.tick(paused_at).toggle_pause().tick(paused_at + delay).elapsed == s.elapsed + delay,
{
}

/// Unless it is reset, an expired timer stays expired.
pub proof fn expiry_lasts(s: TimerState, events: Seq<Event>)
    requires
        s.is_expired(),
        no_reset(events),
    ensures
        s.run(events).is_expired(),
        s.fire_count(events) == 0,
    decreases events.len(),
{
    if events.len() > 0 {
        expiry_lasts(s, events.drop_last());
    }
}

/// Between two resets the expiry callback runs at most once, and only on a
/// tick that takes the timer from not expired to expired. Where the timer has
/// not been terminated by the end, it runs exactly once if the timer went
/// from not expired to expired, and never otherwise, whatever ticks follow
/// the expiry.
pub proof fn expiry_fires_exactly_once(s: TimerState, events: Seq<Event>)
    requires
        no_reset(events),
    ensures
        s.fire_count(events) <= 1,
        s.fire_count(events) == 1 ==> !s.is_expired() && s.run(events).is_expired(),
        !s.run(events).terminated ==> (s.fire_count(events) == 1 <==> !s.is_expired() && s.run(
            events,
        ).is_expired()),
    decreases events.len(),
{
    if s.is_expired() {
        expiry_lasts(s, events);
    } else if events.len() > 0 {
        expiry_fires_exactly_once(s, events.drop_last());
    }
}

/// The elapsed part of the interval lies between 0 and 1 in every state.
pub proof fn elapsed_ratio_within_unit(s: TimerState)
    ensures
        within_unit(s.elapsed_ratio()),
{
}

/// Once a timer has expired, the whole interval has elapsed.
pub proof fn expired_timer_has_elapsed_entirely(s: TimerState)
    requires
        s.wf(),
        s.is_expired(),
    ensures
        s.elapsed_ratio().0 == s.elapsed_ratio().1,
{
}

/// A reset leaves the timer as a new one would be, whatever happened to it
/// before.
pub proof fn reset_gives_fresh_timer(s: TimerState, events: Seq<Event>, duration: int, now: int)
    ensures
        s.run(events).reset(duration, now) == TimerState::started(
            accepted_duration(duration),
            now,
        ),
{
}

/// Unless it is reset, a terminated timer stays terminated.
pub proof fn termination_lasts(s: TimerState, events: Seq<Event>)
    requires
        s.terminated,
        no_reset(events),
    ensures
        s.run(events).terminated,
    decreases events.len(),
{
    if events.len() > 0 {
        termination_lasts(s, events.drop_last());
    }
}

/// Every tick of the sequence comes before the instant `limit`.
pub open spec fn ticks_before(events: Seq<Event>, limit: int) -> bool {
    forall|i: int| 0 <= i < events.len() ==> (#[trigger] events[i] matches Event::Tick { now }
        ==> now < limit)
}

/// A running timer whose ticks all come before its finish instant does not
/// expire, and its callback does not run.
pub proof fn ticks_before_finish_do_not_expire(s: TimerState, events: Seq<Event>)
    requires
        !s.paused,
        !s.is_expired(),
        only_ticks(events),
        ticks_before(events, s.finish_at),
    ensures
        !s.run(events).is_expired(),
        !s.run(events).paused,
        s.run(events).finish_at == s.finish_at,
        s.run(events).terminated == s.terminated,
        s.fire_count(events) == 0,
    decreases events.len(),
{
    if events.len() > 0 {
        ticks_before_finish_do_not_expire(s, events.drop_last());
    }
}

/// The first tick that finds a running timer at or past its finish instant
/// expires it, and runs the callback unless the timer has been terminated.
pub proof fn tick_at_finish_expires(s: TimerState, now: int)
    requires
        !s.paused,
        !s.is_expired(),
        now >= s.finish_at,
    ensures
        s.tick(now).is_expired(),
        s.fires(Event::Tick { now }) == !s.terminated,
{
}

/// After `terminate`, nothing but a reset makes the expiry callback run:
/// no tick does, whenever it comes and whether or not the countdown expires
/// on it.
pub proof fn terminated_timer_stays_silent(s: TimerState, events: Seq<Event>)
    requires
        no_reset(events),
    ensures
        s.terminate().fire_count(events) == 0,
        s.terminate().run(events).terminated,
    decreases events.len(),
{
    if events.len() > 0 {
        terminated_timer_stays_silent(s, events.drop_last());
    }
}

/// Ticks alone, after `terminate`, never make the expiry callback run, and
/// the timer counts down as it would have without `terminate`.
pub proof fn ticks_after_terminate_are_silent(s: TimerState, events: Seq<Event>)
    requires
        only_ticks(events),
    ensures
        s.terminate().fire_count(events) == 0,
        s.terminate().run(events) == s.run(events).terminate(),
    decreases events.len(),
{
    if events.len() > 0 {
        ticks_after_terminate_are_silent(s, events.drop_last());
    }
}

} // verus!
