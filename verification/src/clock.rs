//! The wall clock of the machine, read in its local time zone.

use crate::text::{decimal, decimal_text};
use chrono::{Datelike, Local, Timelike};
use vstd::prelude::*;
use vstd::string::StringExecFns;

verus! {

/// A time of day to the minute.
#[derive(Clone, Copy, Debug, PartialEq, Eq, Structural)]
pub struct TimeOfDay {
    pub hour: u32,
    pub minute: u32,
}

/// A calendar date.
#[derive(Clone, Copy, Debug, PartialEq, Eq, Structural)]
pub struct Date {
    pub year: i32,
    pub month: u32,
    pub day: u32,
}

impl TimeOfDay {
    /// Whether hour and minute are in the range of a clock.
    pub open spec fn wf(self) -> bool {
        self.hour < 24 && self.minute < 60
    }

    /// The time as records show it: hour, a colon, minute, neither padded.
    pub open spec fn text(self) -> Seq<char> {
        decimal_text(self.hour as nat) + seq![':'] + decimal_text(self.minute as nat)
    }

    /// Writes the time as records show it.
    pub fn to_text(&self) -> (text: String)
        ensures
            text@ == self.text(),
    {
        proof {
            reveal_strlit(":");
        }
        let mut text = decimal(self.hour as u64);
        text.append(":");
        let minute = decimal(self.minute as u64);
        text.append(minute.as_str());
        assert(text@ =~= self.text());
        text
    }
}

impl Date {
    /// Whether month and day are in the range of a calendar.
    pub open spec fn wf(self) -> bool {
        1 <= self.month <= 12 && 1 <= self.day <= 31
    }
}

/// A date and a time of day.
#[derive(Clone, Copy, Debug, PartialEq, Eq, Structural)]
pub struct Moment {
    pub date: Date,
    pub time: TimeOfDay,
}

impl Moment {
    /// Whether date and time are in the range of calendar and clock.
    pub open spec fn wf(self) -> bool {
        self.date.wf() && self.time.wf()
    }
}

/// Calls `chrono::Local::now` and reads the result off with the methods of
/// `Datelike` and `Timelike`: year, month and day, hour and minute. The
/// month is from 1 to 12, the day from 1 to 31, the hour below 24 and the
/// minute below 60. Which moment it is depends on the clock and the time
/// zone of the machine, so nothing else is claimed. `Local::now` panics on a
/// machine whose clock stands before 1970.
#[verifier::external_body]
pub(crate) fn local_now() -> (now: Moment)
    ensures
        now.wf(),
{
    let now = Local::now();
    Moment {
        date: Date { year: now.year(), month: now.month(), day: now.day() },
        time: TimeOfDay { hour: now.hour(), minute: now.minute() },
    }
}

} // verus!
