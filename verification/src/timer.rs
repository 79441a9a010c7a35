//! The lines that report how long a piece of work took.
//!
//! A [`Timer`] holds the label of the work. Reading the clock and printing
//! are left to the caller, who hands over the elapsed time as numbers.

use vstd::prelude::*;
use vstd::string::*;
use crate::text::{decimal, decimal_string, join3};

verus! {

/// The whole hours that are written: those of a time of more than an hour.
pub open spec fn hours_part(secs: nat) -> nat {
    if secs > 3600 {
        secs / 3600
    } else {
        0
    }
}

/// The seconds that are left once the hours are written.
pub open spec fn below_hours(secs: nat) -> nat {
    if secs > 3600 {
        secs % 3600
    } else {
        secs
    }
}

/// The whole minutes that are written: those of a rest of more than a
/// minute.
pub open spec fn minutes_part(secs: nat) -> nat {
    if below_hours(secs) > 60 {
        below_hours(secs) / 60
    } else {
        0
    }
}

/// The seconds that are written last.
pub open spec fn seconds_part(secs: nat) -> nat {
    if below_hours(secs) > 60 {
        below_hours(secs) % 60
    } else {
        below_hours(secs)
    }
}

/// A number of seconds as a reader likes it: hours, minutes and seconds,
/// where hours and minutes are left out unless the time is longer than one
/// of them.
pub open spec fn readable(secs: nat) -> Seq<char> {
    let hours = if secs > 3600 {
        decimal(hours_part(secs)) + "h "@
    } else {
        Seq::empty()
    };
    let minutes = if below_hours(secs) > 60 {
        decimal(minutes_part(secs)) + "m "@
    } else {
        Seq::empty()
    };
    hours + minutes + decimal(seconds_part(secs)) + "s"@
}

/// The parts that are written add up to the time, and no part but the hours
/// exceeds sixty. Exactly an hour is written as sixty minutes, and exactly
/// a minute as sixty seconds.
pub proof fn lemma_parts_add_up(secs: nat)
    ensures
        hours_part(secs) * 3600 + minutes_part(secs) * 60 + seconds_part(secs) == secs,
        minutes_part(secs) <= 60,
        seconds_part(secs) <= 60,
        hours_part(secs) > 0 <==> secs > 3600,
        minutes_part(secs) > 0 <==> below_hours(secs) > 60,
{
}

/// The label of a timed piece of work, from which the lines that report on
/// it are made. The caller keeps the clock.
#[derive(Debug, Clone, PartialEq, Eq)]
pub struct Timer {
    message: String,
}

impl View for Timer {
    type V = Seq<char>;

    /// The label.
    closed spec fn view(&self) -> Seq<char> {
        self.message@
    }
}

impl Timer {
    /// A timer for the work that `message` names.
    pub fn new(message: &str) -> (timer: Timer)
        ensures
            timer@ == message@,
    {
        Timer { message: String::from_str(message) }
    }

    /// The line that announces the work.
    pub fn start_line(&self) -> (line: String)
        ensures
            line@ == "["@ + self@ + "] start"@,
    {
        join3("[", self.message.as_str(), "] start")
    }

    /// Writes a number of seconds as hours, minutes and seconds.
    pub fn secs_to_readable(secs: u64) -> (text: String)
        ensures
            text@ == readable(secs as nat),
    {
        let mut rest: u64 = secs;
        let mut text = String::new();
        if rest > 60 * 60 {
            let hours: u64 = rest / (60 * 60);
            rest = rest % (60 * 60);
            let number = decimal_string(hours);
            text.append(number.as_str());
            text.append("h ");
        }
        if rest > 60 {
            let minutes: u64 = rest / 60;
            rest = rest % 60;
            let number = decimal_string(minutes);
            text.append(number.as_str());
            text.append("m ");
        }
        let number = decimal_string(rest);
        text.append(number.as_str());
        text.append("s");
        text
    }

    /// The line that reports the end of the work after `secs` seconds and
    /// `millis` milliseconds.
    pub fn finish_line(&self, secs: u64, millis: u32) -> (line: String)
        ensures
            line@ == "["@ + self@ + "] finish @ "@ + readable(secs as nat) + " "@ + decimal(
                millis as nat,
            ) + "ms"@,
    {
        let mut line = join3("[", self.message.as_str(), "] finish @ ");
        let time = Timer::secs_to_readable(secs);
        line.append(time.as_str());
        line.append(" ");
        let number = decimal_string(millis as u64);
        line.append(number.as_str());
        line.append("ms");
        line
    }
}

} // verus!
