//! Times of day and days of the week, as the sign's commands carry them.

use vstd::prelude::*;

verus! {

/// Why a time of day could not be made.
#[derive(Clone, Copy, Debug, PartialEq, Eq, Structural)]
pub enum TimeError {
    /// The hour is above 23.
    HourOutOfRange,
    /// The minute is above 59.
    MinuteOutOfRange,
}

/// A time of day to the minute: an hour below 24 and a minute below 60.
#[derive(Clone, Copy, Debug, PartialEq, Eq, Structural)]
pub struct TimeOfDay {
    hour: u8,
    minute: u8,
}

impl TimeOfDay {
    #[verifier::type_invariant]
    spec fn in_range(self) -> bool {
        self.hour < 24 && self.minute < 60
    }

    /// The hour, 0 to 23.
    pub closed spec fn hour_spec(self) -> u8 {
        self.hour
    }

    /// The minute, 0 to 59.
    pub closed spec fn minute_spec(self) -> u8 {
        self.minute
    }

    /// The time with the given hour and minute.
    pub closed spec fn from_parts(hour: u8, minute: u8) -> TimeOfDay {
        TimeOfDay { hour, minute }
    }

    /// The time `hour:minute`; fails where the hour is above 23 or the
    /// minute above 59.
    pub fn new(hour: u8, minute: u8) -> (r: Result<TimeOfDay, TimeError>)
        ensures
            hour >= 24 ==> r == Err::<TimeOfDay, TimeError>(TimeError::HourOutOfRange),
            hour < 24 && minute >= 60 ==> r == Err::<TimeOfDay, TimeError>(
                TimeError::MinuteOutOfRange,
            ),
            hour < 24 && minute < 60 ==> r == Ok::<TimeOfDay, TimeError>(
                Self::from_parts(hour, minute),
            ),
    {
        if hour >= 24 {
            Err(TimeError::HourOutOfRange)
        } else if minute >= 60 {
            Err(TimeError::MinuteOutOfRange)
        } else {
            Ok(TimeOfDay { hour, minute })
        }
    }

    /// The hour, 0 to 23.
    pub fn hour(&self) -> (r: u8)
        ensures
            r == self.hour_spec(),
            r < 24,
    {
        proof {
            use_type_invariant(self);
        }
        self.hour
    }

    /// The minute, 0 to 59.
    pub fn minute(&self) -> (r: u8)
        ensures
            r == self.minute_spec(),
            r < 60,
    {
        proof {
            use_type_invariant(self);
        }
        self.minute
    }
}

/// A time is determined by its hour and minute.
pub proof fn lemma_time_parts(hour: u8, minute: u8, t: TimeOfDay)
    ensures
        TimeOfDay::from_parts(hour, minute).hour_spec() == hour,
        TimeOfDay::from_parts(hour, minute).minute_spec() == minute,
        TimeOfDay::from_parts(t.hour_spec(), t.minute_spec()) == t,
{
}

/// A day of the week.
#[derive(Clone, Copy, Debug, PartialEq, Eq, Structural)]
pub enum Weekday {
    Sunday,
    Monday,
    Tuesday,
    Wednesday,
    Thursday,
    Friday,
    Saturday,
}

impl Weekday {
    /// The digit that stands for the day on the wire: `1` for Sunday up to
    /// `7` for Saturday.
    pub open spec fn digit(self) -> u8 {
        match self {
            Weekday::Sunday => 0x31,
            Weekday::Monday => 0x32,
            Weekday::Tuesday => 0x33,
            Weekday::Wednesday => 0x34,
            Weekday::Thursday => 0x35,
            Weekday::Friday => 0x36,
            Weekday::Saturday => 0x37,
        }
    }

    /// Exec counterpart of [`Weekday::digit`].
    pub fn to_digit(self) -> (r: u8)
        ensures
            r == self.digit(),
    {
        match self {
            Weekday::Sunday => 0x31,
            Weekday::Monday => 0x32,
            Weekday::Tuesday => 0x33,
            Weekday::Wednesday => 0x34,
            Weekday::Thursday => 0x35,
            Weekday::Friday => 0x36,
            Weekday::Saturday => 0x37,
        }
    }
}

} // verus!
