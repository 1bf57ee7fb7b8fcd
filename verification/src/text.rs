//! Numbers and times as text.

use crate::clock::TimeOfDay;
use vstd::prelude::*;
use vstd::string::StringExecFns;

verus! {

/// The character of a decimal digit.
pub open spec fn digit_char(digit: int) -> char {
    if digit == 0 {
        '0'
    } else if digit == 1 {
        '1'
    } else if digit == 2 {
        '2'
    } else if digit == 3 {
        '3'
    } else if digit == 4 {
        '4'
    } else if digit == 5 {
        '5'
    } else if digit == 6 {
        '6'
    } else if digit == 7 {
        '7'
    } else if digit == 8 {
        '8'
    } else {
        '9'
    }
}

/// A natural number in decimal, without leading zeros.
pub open spec fn decimal(n: nat) -> Seq<char>
    decreases n,
{
    if n < 10 {
        seq![digit_char(n as int)]
    } else {
        decimal(n / 10).push(digit_char((n % 10) as int))
    }
}

/// A natural number in decimal, with a leading zero where it has one digit.
pub open spec fn two_digits(n: nat) -> Seq<char> {
    if n < 10 {
        seq!['0', digit_char(n as int)]
    } else {
        decimal(n)
    }
}

/// Hours, minutes and seconds, each in at least two digits, with colons between.
pub open spec fn hms_text(hours: nat, minutes: nat, seconds: nat) -> Seq<char> {
    two_digits(hours) + seq![':'] + two_digits(minutes) + seq![':'] + two_digits(seconds)
}

/// Minutes and seconds, each in at least two digits, with a colon between.
pub open spec fn ms_text(minutes: nat, seconds: nat) -> Seq<char> {
    two_digits(minutes) + seq![':'] + two_digits(seconds)
}

/// The time left, in whole seconds, as `HH:MM:SS`, or as `MM:SS` where less
/// than an hour is left. A time below zero reads as zero.
pub open spec fn countdown_text(remaining_ms: int) -> Seq<char> {
    let seconds = if remaining_ms <= 0 { 0nat } else { (remaining_ms / 1000) as nat };
    if seconds / 3600 == 0 {
        ms_text((seconds / 60) % 60, seconds % 60)
    } else {
        hms_text(seconds / 3600, (seconds / 60) % 60, seconds % 60)
    }
}

/// What stands for a time of day that the local calendar cannot give.
pub open spec fn unknown_time_text() -> Seq<char> {
    seq!['-', '-', ':', '-', '-', ':', '-', '-']
}

/// A reading of the local calendar as `HH:MM:SS`.
pub open spec fn time_of_day_text(reading: Option<TimeOfDay>) -> Seq<char> {
    match reading {
        Some(time) => hms_text(time.hour as nat, time.minute as nat, time.second as nat),
        None => unknown_time_text(),
    }
}

fn digit_str(digit: u64) -> (text: &'static str)
    requires
        digit < 10,
    ensures
        text@ == seq![digit_char(digit as int)],
{
    proof {
        reveal_strlit("0");
        reveal_strlit("1");
        reveal_strlit("2");
        reveal_strlit("3");
        reveal_strlit("4");
        reveal_strlit("5");
        reveal_strlit("6");
        reveal_strlit("7");
        reveal_strlit("8");
        reveal_strlit("9");
    }
    let text = if digit == 0 {
        "0"
    } else if digit == 1 {
        "1"
    } else if digit == 2 {
        "2"
    } else if digit == 3 {
        "3"
    } else if digit == 4 {
        "4"
    } else if digit == 5 {
        "5"
    } else if digit == 6 {
        "6"
    } else if digit == 7 {
        "7"
    } else if digit == 8 {
        "8"
    } else {
        "9"
    };
    assert(text@ =~= seq![digit_char(digit as int)]);
    text
}

/// Appends `n` in decimal.
pub fn push_decimal(out: &mut String, n: u64)
    ensures
        final(out)@ == old(out)@ + decimal(n as nat),
    decreases n,
{
    if n >= 10 {
        push_decimal(out, n / 10);
    }
    out.append(digit_str(n % 10));
    assert(out@ =~= old(out)@ + decimal(n as nat));
}

/// Appends `n` in at least two decimal digits.
pub fn push_two_digits(out: &mut String, n: u64)
    ensures
        final(out)@ == old(out)@ + two_digits(n as nat),
{
    if n < 10 {
        proof {
            reveal_strlit("0");
        }
        out.append("0");
    }
    push_decimal(out, n);
    assert(out@ =~= old(out)@ + two_digits(n as nat));
}

/// The time left as text: see `countdown_text`.
pub fn countdown_string(remaining_ms: i64) -> (text: String)
    ensures
        text@ == countdown_text(remaining_ms as int),
{
    let seconds: u64 = if remaining_ms <= 0 {
        0
    } else {
        (remaining_ms / 1000) as u64
    };
    let hours: u64 = seconds / 3600;
    let minutes: u64 = (seconds / 60) % 60;
    let mut text = String::new();
    proof {
        reveal_strlit(":");
    }
    if hours != 0 {
        push_two_digits(&mut text, hours);
        text.append(":");
    }
    push_two_digits(&mut text, minutes);
    text.append(":");
    push_two_digits(&mut text, seconds % 60);
    assert(text@ =~= countdown_text(remaining_ms as int));
    text
}

/// A reading of the local calendar as text: see `time_of_day_text`.
pub fn time_of_day_string(reading: Option<TimeOfDay>) -> (text: String)
    ensures
        text@ == time_of_day_text(reading),
{
    let mut text = String::new();
    match reading {
        Some(time) => {
            proof {
                reveal_strlit(":");
            }
            push_two_digits(&mut text, time.hour as u64);
            text.append(":");
            push_two_digits(&mut text, time.minute as u64);
            text.append(":");
            push_two_digits(&mut text, time.second as u64);
            assert(text@ =~= time_of_day_text(reading));
        },
        None => {
            proof {
                reveal_strlit("--:--:--");
            }
            text.append("--:--:--");
            assert(text@ =~= time_of_day_text(reading));
        },
    }
    text
}

} // verus!
