//! The time of day as the clockface consumes it: three fields, each inside
//! its wall-clock range.

use chrono::NaiveTime;
use chrono::Timelike;
use vstd::prelude::*;

verus! {

/// `chrono`'s time of day, carried through as it is.
#[verifier::external_type_specification]
#[verifier::external_body]
pub struct ExNaiveTime(chrono::NaiveTime);

/// The hour number that `chrono` reports for a time of day.
pub uninterp spec fn naive_hour(t: NaiveTime) -> u32;

/// The minute number that `chrono` reports for a time of day.
pub uninterp spec fn naive_minute(t: NaiveTime) -> u32;

/// The second number that `chrono` reports for a time of day.
pub uninterp spec fn naive_second(t: NaiveTime) -> u32;

/// Calls `Timelike::hour` on a `chrono::NaiveTime`. Trusted: the result is
/// that time's hour number, which `chrono` documents as lying in 0..=23.
#[verifier::external_body]
fn hour_of(t: &NaiveTime) -> (hour: u32)
    ensures
        hour == naive_hour(*t),
        hour <= 23,
{
    t.hour()
}

/// Calls `Timelike::minute` on a `chrono::NaiveTime`. Trusted: the result is
/// that time's minute number, which `chrono` documents as lying in 0..=59.
#[verifier::external_body]
fn minute_of(t: &NaiveTime) -> (minute: u32)
    ensures
        minute == naive_minute(*t),
        minute <= 59,
{
    t.minute()
}

/// Calls `Timelike::second` on a `chrono::NaiveTime`. Trusted: the result is
/// that time's second number, which `chrono` documents as lying in 0..=59
/// (a leap second is reported as 59).
#[verifier::external_body]
fn second_of(t: &NaiveTime) -> (second: u32)
    ensures
        second == naive_second(*t),
        second <= 59,
{
    t.second()
}

/// The three fields of a time of day, as mathematical integers.
pub struct Reading {
    /// Hours since midnight.
    pub hour: int,
    /// Minutes since the full hour.
    pub minute: int,
    /// Seconds since the full minute.
    pub second: int,
}

impl Reading {
    /// Hour in 0..=23, minute and second in 0..=59.
    pub open spec fn in_range(self) -> bool {
        &&& 0 <= self.hour <= 23
        &&& 0 <= self.minute <= 59
        &&& 0 <= self.second <= 59
    }
}

/// A wall-clock reading. Every value of this type is in range.
#[derive(Clone, Copy, Debug, PartialEq, Eq)]
pub struct TimeOfDay {
    hour: u32,
    minute: u32,
    second: u32,
}

impl View for TimeOfDay {
    type V = Reading;

    closed spec fn view(&self) -> Reading {
        Reading { hour: self.hour as int, minute: self.minute as int, second: self.second as int }
    }
}

impl TimeOfDay {
    #[verifier::type_invariant]
    spec fn well_formed(self) -> bool {
        self.hour <= 23 && self.minute <= 59 && self.second <= 59
    }

    /// Builds a reading from its fields, or nothing where a field is out of
    /// range.
    pub fn new(hour: u32, minute: u32, second: u32) -> (time: Option<TimeOfDay>)
        ensures
            time is Some <==> hour <= 23 && minute <= 59 && second <= 59,
            time matches Some(t) ==> t@ == (Reading {
                hour: hour as int,
                minute: minute as int,
                second: second as int,
            }),
    {
        if hour <= 23 && minute <= 59 && second <= 59 {
            Some(TimeOfDay { hour, minute, second })
        } else {
            None
        }
    }

    /// Takes the hour, minute and second of a `chrono` time of day.
    pub fn from_naive_time(now: &NaiveTime) -> (time: TimeOfDay)
        ensures
            time@ == (Reading {
                hour: naive_hour(*now) as int,
                minute: naive_minute(*now) as int,
                second: naive_second(*now) as int,
            }),
            time@.in_range(),
    {
        TimeOfDay { hour: hour_of(now), minute: minute_of(now), second: second_of(now) }
    }

    /// The hour, 0..=23.
    pub fn hour(&self) -> (hour: u32)
        ensures
            hour == self@.hour,
            hour <= 23,
    {
        proof {
            use_type_invariant(self);
        }
        self.hour
    }

    /// The minute, 0..=59.
    pub fn minute(&self) -> (minute: u32)
        ensures
            minute == self@.minute,
            minute <= 59,
    {
        proof {
            use_type_invariant(self);
        }
        self.minute
    }

    /// The second, 0..=59.
    pub fn second(&self) -> (second: u32)
        ensures
            second == self@.second,
            second <= 59,
    {
        proof {
            use_type_invariant(self);
        }
        self.second
    }
}

} // verus!
