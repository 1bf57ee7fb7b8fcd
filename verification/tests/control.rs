use paradajz::control::{
    command_for_key, dispatch_key, duration_ms_from_minutes, loop_status, Command, ConfigError,
    LoopStatus, DEFAULT_DURATION_MINUTES, POLL_TIMEOUT_MS,
};
use paradajz::timer::{Timer, MAX_DURATION_MS};
use std::cell::Cell;
use std::rc::Rc;

fn quiet() {}

#[test]
fn minutes_become_milliseconds() {
    assert_eq!(duration_ms_from_minutes(0), Ok(0));
    assert_eq!(duration_ms_from_minutes(1), Ok(60_000));
    assert_eq!(duration_ms_from_minutes(DEFAULT_DURATION_MINUTES), Ok(1_200_000));
    assert_eq!(
        duration_ms_from_minutes(153_572_867_280_912),
        Ok(9_214_372_036_854_720_000 + 0)
    );
    assert!(duration_ms_from_minutes(153_572_867_280_912).unwrap() <= MAX_DURATION_MS);
}

#[test]
fn negative_minutes_are_refused() {
    assert_eq!(duration_ms_from_minutes(-1), Err(ConfigError::NegativeDuration));
    assert_eq!(duration_ms_from_minutes(i64::MIN), Err(ConfigError::NegativeDuration));
}

#[test]
fn too_many_minutes_are_refused() {
    assert_eq!(
        duration_ms_from_minutes(153_572_867_280_913),
        Err(ConfigError::DurationTooLong)
    );
    assert_eq!(duration_ms_from_minutes(i64::MAX), Err(ConfigError::DurationTooLong));
}

#[test]
fn config_errors_have_messages() {
    assert_eq!(ConfigError::NegativeDuration.message(), "the duration must not be negative");
    assert_eq!(ConfigError::DurationTooLong.message(), "the duration is too long");
}

#[test]
fn poll_timeout_is_ten_milliseconds() {
    assert_eq!(POLL_TIMEOUT_MS, 10);
    assert_eq!(DEFAULT_DURATION_MINUTES, 20);
}

#[test]
fn loop_goes_on_while_the_timer_runs() {
    let mut timer = Timer::new_at(1000, 0, quiet);
    assert_eq!(loop_status(&timer), LoopStatus::Continue);
    assert!(!timer.tick_at(999));
    assert_eq!(loop_status(&timer), LoopStatus::Continue);
    timer.toggle_pause();
    assert!(!timer.tick_at(5000));
    assert_eq!(loop_status(&timer), LoopStatus::Continue);
}

#[test]
fn loop_ends_when_the_timer_expires() {
    let mut timer = Timer::new_at(1000, 0, quiet);
    assert!(timer.tick_at(1000));
    assert_eq!(loop_status(&timer), LoopStatus::Expired);
}

#[test]
fn loop_ends_on_termination_without_notification() {
    let count = Rc::new(Cell::new(0u32));
    let seen = count.clone();
    let mut timer = Timer::new_at(60_000, 0, move || seen.set(seen.get() + 1));
    timer.terminate();
    assert!(!timer.tick_at(10));
    assert_eq!(loop_status(&timer), LoopStatus::Terminated);
    assert!(!timer.is_expired());
    assert_eq!(count.get(), 0);
}

#[test]
fn termination_comes_before_expiry() {
    let mut timer = Timer::new_at(1000, 0, quiet);
    assert!(timer.tick_at(2000));
    timer.terminate();
    assert!(timer.is_expired());
    assert_eq!(loop_status(&timer), LoopStatus::Terminated);
}

#[test]
fn keys_map_to_commands() {
    assert_eq!(command_for_key('p'), Some(Command::TogglePause));
    assert_eq!(command_for_key('q'), Some(Command::Terminate));
    assert_eq!(command_for_key('r'), Some(Command::Reset));
    assert_eq!(command_for_key('P'), None);
    assert_eq!(command_for_key('Q'), None);
    assert_eq!(command_for_key('R'), None);
    assert_eq!(command_for_key('x'), None);
    assert_eq!(command_for_key(' '), None);
    assert_eq!(command_for_key('\n'), None);
}

#[test]
fn key_p_pauses_and_resumes() {
    let mut timer = Timer::new_at(1000, 0, quiet);
    dispatch_key(&mut timer, 'p', 1000);
    assert!(timer.paused());
    assert_eq!(timer.remaining_ms(), 1000);
    dispatch_key(&mut timer, 'p', 1000);
    assert!(!timer.paused());
    assert_eq!(timer.remaining_ms(), 1000);
    assert!(!timer.terminated());
}

#[test]
fn key_q_terminates() {
    let mut timer = Timer::new_at(1000, 0, quiet);
    dispatch_key(&mut timer, 'q', 1000);
    assert!(timer.terminated());
    assert!(!timer.paused());
    assert_eq!(timer.remaining_ms(), 1000);
    assert_eq!(loop_status(&timer), LoopStatus::Terminated);
}

#[test]
fn key_r_resets_to_the_given_duration() {
    let mut timer = Timer::new_at(1000, 0, quiet);
    assert!(!timer.tick_at(600));
    timer.toggle_pause();
    dispatch_key(&mut timer, 'r', 120_000);
    assert_eq!(timer.duration_ms(), 120_000);
    assert_eq!(timer.remaining_ms(), 120_000);
    assert_eq!(timer.elapsed_ms(), 0);
    assert!(!timer.paused());
    assert!(!timer.terminated());
    assert!(timer.finish_at_ms() > 120_000);
}

#[test]
fn other_keys_change_nothing() {
    let mut timer = Timer::new_at(1000, 0, quiet);
    assert!(!timer.tick_at(250));
    dispatch_key(&mut timer, 'x', 5000);
    dispatch_key(&mut timer, 'Q', 5000);
    dispatch_key(&mut timer, '1', 5000);
    assert_eq!(timer.duration_ms(), 1000);
    assert_eq!(timer.remaining_ms(), 750);
    assert_eq!(timer.elapsed_ms(), 250);
    assert_eq!(timer.finish_at_ms(), 1000);
    assert!(!timer.paused());
    assert!(!timer.terminated());
}

#[test]
fn termination_silences_a_timer_that_is_due() {
    let count = Rc::new(Cell::new(0u32));
    let seen = count.clone();
    let mut timer = Timer::new_at(1000, 0, move || seen.set(seen.get() + 1));
    dispatch_key(&mut timer, 'q', 1000);
    assert!(!timer.tick_at(1000));
    assert_eq!(loop_status(&timer), LoopStatus::Terminated);
    assert_eq!(count.get(), 0);
}

#[test]
fn key_r_takes_every_duration() {
    let mut timer = Timer::new_at(1000, 0, quiet);
    dispatch_key(&mut timer, 'r', i64::MAX);
    assert_eq!(timer.remaining_ms(), i64::MAX);
    dispatch_key(&mut timer, 'r', -1);
    assert_eq!(timer.remaining_ms(), 0);
    assert!(timer.is_expired());
}
