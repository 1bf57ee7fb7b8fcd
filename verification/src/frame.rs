//! What one frame of the display shows: a line of text above a progress
//! gauge. Drawing the frame is left to the caller.

use crate::clock::{TimeOfDay, CALENDAR_REACH_MS};
use crate::ratio::{percent_of, Ratio};
use crate::text::{countdown_text, decimal, push_decimal, time_of_day_text};
use crate::timer::Timer;
use vstd::prelude::*;
use vstd::string::StringExecFns;

verus! {

/// A colour by its red, green and blue parts.
#[derive(Clone, Copy, Debug, PartialEq, Eq, Structural)]
pub struct Rgb {
    pub red: u8,
    pub green: u8,
    pub blue: u8,
}

/// The contents of one frame.
pub struct Frame {
    /// The time remaining and the time of day at which the interval ends.
    pub text: String,
    pub text_color: Rgb,
    /// The elapsed part of the interval in percent.
    pub gauge_label: String,
    pub gauge_color: Rgb,
    /// How far the gauge is filled.
    pub gauge_ratio: Ratio,
}

/// The line of text: the time remaining, a dash, an alarm clock, and the
/// finish time.
pub open spec fn status_text(remaining: Seq<char>, finish: Seq<char>) -> Seq<char> {
    remaining + seq![' ', '-', ' ', '\u{23F0}', ' '] + finish
}

/// A whole number of percent with its sign.
pub open spec fn percent_label(percent: nat) -> Seq<char> {
    decimal(percent).push('%')
}

/// The colour of the text.
pub open spec fn text_color() -> Rgb {
    Rgb { red: 255, green: 0, blue: 0 }
}

/// The colour of the gauge: dim while the timer is paused, bright while it
/// runs.
pub open spec fn gauge_color(paused: bool) -> Rgb {
    if paused {
        Rgb { red: 44, green: 56, blue: 54 }
    } else {
        Rgb { red: 0, green: 208, blue: 152 }
    }
}

/// The frame shows the two times, the ratio, and the colours of a timer that
/// is paused or not.
pub open spec fn shows(
    frame: Frame,
    remaining: Seq<char>,
    finish: Seq<char>,
    ratio: (int, int),
    paused: bool,
) -> bool {
    &&& frame.text@ == status_text(remaining, finish)
    &&& frame.text_color == text_color()
    &&& frame.gauge_label@ == percent_label(percent_of(ratio) as nat)
    &&& frame.gauge_color == gauge_color(paused)
    &&& frame.gauge_ratio@ == ratio
    &&& frame.gauge_ratio.wf()
}

/// The frame for the given times, ratio and pause flag.
pub fn compose(remaining: &str, finish: &str, ratio: Ratio, paused: bool) -> (frame: Frame)
    requires
        ratio.wf(),
    ensures
        shows(frame, remaining@, finish@, ratio@, paused),
{
    let mut text = String::new();
    text.append(remaining);
    proof {
        reveal_strlit(" - \u{23F0} ");
    }
    text.append(" - \u{23F0} ");
    text.append(finish);
    assert(text@ =~= status_text(remaining@, finish@));
    let mut gauge_label = String::new();
    push_decimal(&mut gauge_label, ratio.percent() as u64);
    proof {
        reveal_strlit("%");
    }
    gauge_label.append("%");
    assert(gauge_label@ =~= percent_label(percent_of(ratio@) as nat));
    let gauge_color = if paused {
        Rgb { red: 44, green: 56, blue: 54 }
    } else {
        Rgb { red: 0, green: 208, blue: 152 }
    };
    Frame {
        text,
        text_color: Rgb { red: 255, green: 0, blue: 0 },
        gauge_label,
        gauge_color,
        gauge_ratio: ratio,
    }
}

/// The frame for a timer. The finish time is read off the local calendar,
/// so it is the text of some time of day, or of none where the calendar does
/// not reach the finish instant.
///
/// Unwinds where the time zone data of the machine gives no usable offset.
pub fn frame_of<F: Fn()>(timer: &Timer<F>) -> (frame: Frame)
    ensures
        exists|reading: Option<TimeOfDay>|
            (reading matches Some(time) ==> time.wf()) && #[trigger] shows(
                frame,
                countdown_text(timer@.remaining),
                time_of_day_text(reading),
                timer@.elapsed_ratio(),
                timer@.paused,
            ),
        -CALENDAR_REACH_MS <= timer@.finish_at <= CALENDAR_REACH_MS ==> exists|time: TimeOfDay|
            time.wf() && #[trigger] shows(
                frame,
                countdown_text(timer@.remaining),
                time_of_day_text(Some(time)),
                timer@.elapsed_ratio(),
                timer@.paused,
            ),
{
    let remaining = timer.remaining_time_formatted();
    let finish = timer.finish_time_formatted();
    let frame = compose(remaining.as_str(), finish.as_str(), timer.elapsed_ratio(), timer.paused());
    proof {
        let reading = choose|reading: Option<TimeOfDay>|
            (reading matches Some(time) ==> time.wf()) && #[trigger] time_of_day_text(reading)
                == finish@;
        assert(shows(
            frame,
            countdown_text(timer@.remaining),
            time_of_day_text(reading),
            timer@.elapsed_ratio(),
            timer@.paused,
        ));
        if -CALENDAR_REACH_MS <= timer@.finish_at <= CALENDAR_REACH_MS {
            let time = choose|time: TimeOfDay|
                time.wf() && #[trigger] time_of_day_text(Some(time)) == finish@;
            assert(shows(
                frame,
                countdown_text(timer@.remaining),
                time_of_day_text(Some(time)),
                timer@.elapsed_ratio(),
                timer@.paused,
            ));
        }
    }
    frame
}

} // verus!
