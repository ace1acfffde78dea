//! Points in time of the local calendar: a day and a time of that day.

use crate::date::{days_in_month, Date, MAX_YEAR};
use chrono::{Datelike, Local, NaiveDate, NaiveTime, TimeDelta, Timelike};
use vstd::prelude::*;

verus! {

/// The number of seconds of a day.
pub const SECS_PER_DAY: u32 = 86400;

/// The number of seconds of an hour.
pub const SECS_PER_HOUR: u32 = 3600;

/// The number of nanoseconds of a second.
pub const NANOS_PER_SEC: u32 = 1000000000;

/// The day after `date`, if the calendar reaches that far.
pub open spec fn next_day(date: Date) -> Option<Date> {
    if date.day < days_in_month(date.year as int, date.month as int) {
        Some(Date { year: date.year, month: date.month, day: (date.day + 1) as u32 })
    } else if date.month < 12 {
        Some(Date { year: date.year, month: (date.month + 1) as u32, day: 1 })
    } else if date.year < MAX_YEAR {
        Some(Date { year: (date.year + 1) as i32, month: 1, day: 1 })
    } else {
        None
    }
}

/// Of two points in time that differ, one lies before the other and not
/// the other way round; none lies before itself; and what lies before an
/// earlier point lies before every later one. So a point in time that does
/// not lie after another is the same or an earlier one.
pub proof fn lemma_precedes_orders(a: DateTime, b: DateTime, c: DateTime)
    ensures
        !a.precedes(a),
        a.precedes(b) ==> !b.precedes(a),
        a != b ==> a.precedes(b) || b.precedes(a),
        a.precedes(b) && b.precedes(c) ==> a.precedes(c),
{
}

/// A point in time: a day of the calendar, the seconds since the midnight
/// at which that day began, and the nanoseconds since that second.
#[derive(Clone, Copy, Debug, PartialEq, Eq, Structural)]
pub struct DateTime {
    pub date: Date,
    pub secs: u32,
    pub nanos: u32,
}

/// `chrono::NaiveDateTime::checked_add_signed` with the `chrono::TimeDelta`
/// that `chrono::TimeDelta::try_seconds` makes of `seconds`, on the date and
/// time that `chrono::NaiveDate::from_ymd_opt` and
/// `chrono::NaiveTime::from_num_seconds_from_midnight_opt` make of the
/// fields: the time so many seconds later, on the next day where it passes
/// midnight, and nothing where that day lies beyond the last year. The
/// contract speaks of no more than a day of seconds, which pass midnight
/// once at most.
#[verifier::external_body]
fn naive_plus_seconds(time: DateTime, seconds: u32) -> (later: Option<DateTime>)
    requires
        time.wf(),
        seconds <= SECS_PER_DAY,
    ensures
        later == time.plus_seconds(seconds as int),
{
    let date = NaiveDate::from_ymd_opt(time.date.year, time.date.month, time.date.day)?;
    let clock = NaiveTime::from_num_seconds_from_midnight_opt(time.secs, time.nanos)?;
    let length = TimeDelta::try_seconds(i64::from(seconds))?;
    let end = date.and_time(clock).checked_add_signed(length)?;
    let day = Date { year: end.year(), month: end.month(), day: end.day() };
    Some(DateTime { date: day, secs: end.num_seconds_from_midnight(), nanos: end.nanosecond() })
}

/// `chrono::Local::now` followed by `chrono::DateTime::naive_local`: the day
/// and the time of day that the system clock shows in the local time zone.
/// Whatever the clock shows, the day is a day of the calendar and the time a
/// time of day with less than a second of nanoseconds.
#[verifier::external_body]
fn local_now() -> (now: DateTime)
    ensures
        now.wf(),
{
    let now = Local::now().naive_local();
    let day = Date { year: now.year(), month: now.month(), day: now.day() };
    DateTime { date: day, secs: now.num_seconds_from_midnight(), nanos: now.nanosecond() }
}

impl DateTime {
    /// Whether the day is a day of the calendar and the time a time of day.
    pub open spec fn wf(self) -> bool {
        self.date.wf() && self.secs < SECS_PER_DAY && self.nanos < NANOS_PER_SEC
    }

    /// Whether this point in time lies before the other: on an earlier day,
    /// or on the same day at an earlier time.
    pub open spec fn precedes(self, other: DateTime) -> bool {
        self.date.precedes(other.date) || (self.date == other.date && (self.secs < other.secs || (
        self.secs == other.secs && self.nanos < other.nanos)))
    }

    /// The point in time `seconds` later, for no more than a day of
    /// seconds, if the calendar reaches that far.
    pub open spec fn plus_seconds(self, seconds: int) -> Option<DateTime> {
        if self.secs + seconds < SECS_PER_DAY {
            Some(
                DateTime {
                    date: self.date,
                    secs: (self.secs + seconds) as u32,
                    nanos: self.nanos,
                },
            )
        } else {
            match next_day(self.date) {
                Some(date) => Some(
                    DateTime {
                        date,
                        secs: (self.secs + seconds - SECS_PER_DAY) as u32,
                        nanos: self.nanos,
                    },
                ),
                None => None,
            }
        }
    }

    /// The point in time one hour later, if the calendar reaches that far.
    pub open spec fn plus_one_hour(self) -> Option<DateTime> {
        self.plus_seconds(SECS_PER_HOUR as int)
    }

    /// The hour of the day, from 0 to 23.
    pub fn hour(&self) -> (hour: u32)
        ensures
            hour == self.secs / SECS_PER_HOUR,
    {
        self.secs / SECS_PER_HOUR
    }

    /// The minute of the hour, from 0 to 59.
    pub fn minute(&self) -> (minute: u32)
        ensures
            minute == (self.secs % SECS_PER_HOUR) / 60,
            minute < 60,
    {
        (self.secs % SECS_PER_HOUR) / 60
    }

    /// The second of the minute, from 0 to 59.
    pub fn second(&self) -> (second: u32)
        ensures
            second == self.secs % 60,
            second < 60,
    {
        self.secs % 60
    }

    /// The day and the time of day on the system clock, in the local time
    /// zone.
    pub fn now() -> (now: DateTime)
        ensures
            now.wf(),
    {
        local_now()
    }

    /// The given hour, minute and second of the given day, if the clock
    /// shows such a time.
    pub fn new(date: Date, hour: u32, minute: u32, second: u32) -> (time: Option<DateTime>)
        ensures
            hour < 24 && minute < 60 && second < 60 ==> time == Some(
                DateTime { date, secs: (hour * 3600 + minute * 60 + second) as u32, nanos: 0 },
            ),
            !(hour < 24 && minute < 60 && second < 60) ==> time is None,
            time is Some && date.wf() ==> time.unwrap().wf(),
    {
        if hour < 24 && minute < 60 && second < 60 {
            Some(DateTime { date, secs: hour * 3600 + minute * 60 + second, nanos: 0 })
        } else {
            None
        }
    }

    /// Whether this point in time lies before the other.
    pub fn is_before(&self, other: &DateTime) -> (before: bool)
        ensures
            before == self.precedes(*other),
    {
        if self.date.year != other.date.year {
            self.date.year < other.date.year
        } else if self.date.month != other.date.month {
            self.date.month < other.date.month
        } else if self.date.day != other.date.day {
            self.date.day < other.date.day
        } else if self.secs != other.secs {
            self.secs < other.secs
        } else {
            self.nanos < other.nanos
        }
    }

    /// The point in time one hour later, if the calendar reaches that far.
    pub fn one_hour_later(&self) -> (later: Option<DateTime>)
        requires
            self.wf(),
        ensures
            later == self.plus_one_hour(),
            later is Some ==> later.unwrap().wf() && self.precedes(later.unwrap()),
    {
        naive_plus_seconds(*self, SECS_PER_HOUR)
    }
}

} // verus!
