use vstd::prelude::*;
use vstd::string::StringExecFns;

use crate::common::format::{signed_decimal, signed_decimal_text};

verus! {

/// A span of time in whole seconds. A negative span ends before it starts.
#[derive(Debug, Clone, Copy, PartialEq, Eq, Structural)]
pub struct Duration {
    pub seconds: i64,
}

/// The unit in which a span is told, in the singular or the plural.
#[derive(Debug, Clone, Copy, PartialEq, Eq, Structural)]
pub enum Unit {
    Year,
    Years,
    Day,
    Days,
    Hour,
    Hours,
    Minute,
    Minutes,
    Seconds,
}

/// How many whole units of `unit` seconds a span holds, counted towards zero.
pub open spec fn whole(seconds: int, unit: int) -> int {
    if seconds >= 0 {
        seconds / unit
    } else {
        -((-seconds) / unit)
    }
}

/// The number and the unit in which a span is told: years where it holds 52 weeks or more
/// than 103, else the largest of days, hours and minutes of which it holds at least one,
/// else seconds.
pub open spec fn span_of(seconds: int) -> (int, Unit) {
    let days = whole(seconds, 86400);
    let weeks = whole(days, 7);
    let hours = whole(seconds, 3600);
    let minutes = whole(seconds, 60);
    if weeks == 52 {
        (whole(weeks, 52), Unit::Year)
    } else if weeks > 103 {
        (whole(weeks, 52), Unit::Years)
    } else if days == 1 {
        (days, Unit::Day)
    } else if days > 1 {
        (days, Unit::Days)
    } else if hours == 1 {
        (hours, Unit::Hour)
    } else if hours > 1 {
        (hours, Unit::Hours)
    } else if minutes == 1 {
        (minutes, Unit::Minute)
    } else if minutes > 1 {
        (minutes, Unit::Minutes)
    } else {
        (seconds, Unit::Seconds)
    }
}

impl Unit {
    /// The English word for the unit.
    pub open spec fn english(self) -> Seq<char> {
        match self {
            Unit::Year => "Year"@,
            Unit::Years => "Years"@,
            Unit::Day => "Day"@,
            Unit::Days => "Days"@,
            Unit::Hour => "Hour"@,
            Unit::Hours => "Hours"@,
            Unit::Minute => "Minute"@,
            Unit::Minutes => "Minutes"@,
            Unit::Seconds => "Seconds"@,
        }
    }

    /// Writes the English word for the unit.
    pub fn english_word(&self) -> (r: &'static str)
        ensures
            r@ == self.english(),
    {
        match self {
            Unit::Year => "Year",
            Unit::Years => "Years",
            Unit::Day => "Day",
            Unit::Days => "Days",
            Unit::Hour => "Hour",
            Unit::Hours => "Hours",
            Unit::Minute => "Minute",
            Unit::Minutes => "Minutes",
            Unit::Seconds => "Seconds",
        }
    }
}

/// A span in English words: the number, a space and the unit.
pub open spec fn span_text(seconds: int) -> Seq<char> {
    signed_decimal(span_of(seconds).0) + " "@ + span_of(seconds).1.english()
}

pub trait DisplayDurationExt {
    /// The span in words.
    spec fn shown(&self) -> Seq<char>;

    /// displays a duration in a human readable form
    fn display(&self) -> (r: String)
        ensures
            r@ == self.shown(),
    ;
}

impl Duration {
    /// The span of `seconds` seconds.
    pub fn seconds(seconds: i64) -> (r: Duration)
        ensures
            r.seconds == seconds,
    {
        Duration { seconds }
    }

    /// The span from `earlier` to `later`, both in seconds since the same instant. `None`
    /// where the span does not fit.
    pub fn between(later: i64, earlier: i64) -> (r: Option<Duration>)
        ensures
            i64::MIN <= later - earlier <= i64::MAX ==> r == Some(
                Duration { seconds: (later - earlier) as i64 },
            ),
            !(i64::MIN <= later - earlier <= i64::MAX) ==> r is None,
    {
        match later.checked_sub(earlier) {
            Some(seconds) => Some(Duration { seconds }),
            None => None,
        }
    }

    /// The number and the unit in which the span is told.
    pub fn span(&self) -> (r: (i64, Unit))
        ensures
            (r.0 as int, r.1) == span_of(self.seconds as int),
    {
        if self.seconds < 0 {
            return (self.seconds, Unit::Seconds);
        }
        let seconds = self.seconds;
        let days = seconds / 86400;
        let weeks = days / 7;
        let hours = seconds / 3600;
        let minutes = seconds / 60;
        if weeks == 52 {
            (weeks / 52, Unit::Year)
        } else if weeks > 103 {
            (weeks / 52, Unit::Years)
        } else if days == 1 {
            (days, Unit::Day)
        } else if days > 1 {
            (days, Unit::Days)
        } else if hours == 1 {
            (hours, Unit::Hour)
        } else if hours > 1 {
            (hours, Unit::Hours)
        } else if minutes == 1 {
            (minutes, Unit::Minute)
        } else if minutes > 1 {
            (minutes, Unit::Minutes)
        } else {
            (seconds, Unit::Seconds)
        }
    }
}

impl DisplayDurationExt for Duration {
    open spec fn shown(&self) -> Seq<char> {
        span_text(self.seconds as int)
    }

    fn display(&self) -> (r: String) {
        let (number, unit) = self.span();
        signed_decimal_text(number).concat(" ").concat(unit.english_word())
    }
}

} // verus!
