use paradajz::frame::{compose, frame_of, Rgb};
use paradajz::ratio::Ratio;
use paradajz::timer::Timer;

fn quiet() {}

#[test]
fn frame_of_a_running_timer() {
    let frame = compose("24:59", "13:37:00", Ratio::new(1, 4).unwrap(), false);
    assert_eq!(frame.text, "24:59 - \u{23F0} 13:37:00");
    assert_eq!(frame.text_color, Rgb { red: 255, green: 0, blue: 0 });
    assert_eq!(frame.gauge_label, "25%");
    assert_eq!(frame.gauge_color, Rgb { red: 0, green: 208, blue: 152 });
    assert_eq!(frame.gauge_ratio.numerator(), 1);
    assert_eq!(frame.gauge_ratio.denominator(), 4);
}

#[test]
fn frame_of_a_paused_timer_is_dimmed() {
    let frame = compose("00:10", "00:00:05", Ratio::new(2, 3).unwrap(), true);
    assert_eq!(frame.text, "00:10 - \u{23F0} 00:00:05");
    assert_eq!(frame.text_color, Rgb { red: 255, green: 0, blue: 0 });
    assert_eq!(frame.gauge_label, "66%");
    assert_eq!(frame.gauge_color, Rgb { red: 44, green: 56, blue: 54 });
}

#[test]
fn gauge_label_runs_from_nothing_to_all() {
    assert_eq!(compose("", "", Ratio::new(0, 9).unwrap(), false).gauge_label, "0%");
    assert_eq!(compose("", "", Ratio::new(9, 9).unwrap(), false).gauge_label, "100%");
    assert_eq!(compose("", "", Ratio::new(0, 9).unwrap(), false).text, " - \u{23F0} ");
}

#[test]
fn frame_is_taken_from_the_timer() {
    let mut timer = Timer::new_at(1_200_000, 1_700_000_000_000, quiet);
    assert!(!timer.tick_at(1_700_000_300_000));
    let frame = frame_of(&timer);
    let expected = format!("15:00 - \u{23F0} {}", timer.finish_time_formatted());
    assert_eq!(frame.text, expected);
    assert_eq!(frame.gauge_label, "25%");
    assert_eq!(frame.gauge_color, Rgb { red: 0, green: 208, blue: 152 });
    assert_eq!(frame.gauge_ratio.numerator(), 300_000);
    assert_eq!(frame.gauge_ratio.denominator(), 1_200_000);

    timer.toggle_pause();
    let frame = frame_of(&timer);
    assert_eq!(frame.gauge_color, Rgb { red: 44, green: 56, blue: 54 });
}

#[test]
fn frame_of_a_timer_within_the_calendar_ends_in_a_time_of_day() {
    let timer = Timer::new_at(60_000, 8_000_000_000_000_000 - 60_000, quiet);
    let frame = frame_of(&timer);
    let finish = frame.text.strip_prefix("01:00 - \u{23F0} ").unwrap();
    assert_eq!(finish.len(), 8);
    assert_eq!(finish, timer.finish_time_formatted());
    assert!(finish.chars().all(|c| c.is_ascii_digit() || c == ':'));
}

#[test]
fn frame_of_a_timer_beyond_the_calendar_leaves_the_finish_time_open() {
    let timer = Timer::new_at(60_000, i64::MAX, quiet);
    let frame = frame_of(&timer);
    assert_eq!(frame.text, "01:00 - \u{23F0} --:--:--");
}
