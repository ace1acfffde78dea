//! Calendar dates of the proleptic Gregorian calendar.

use chrono::{Datelike, NaiveDate};
use vstd::prelude::*;

verus! {

/// The earliest year in which a date can lie.
pub const MIN_YEAR: i32 = -262143;

/// The latest year in which a date can lie.
pub const MAX_YEAR: i32 = 262142;

/// Every fourth year is a leap year, except the centuries that 400 does not divide.
pub open spec fn is_leap_year(year: int) -> bool {
    year % 4 == 0 && (year % 100 != 0 || year % 400 == 0)
}

/// The number of days of a month, for `month` from 1 to 12.
pub open spec fn days_in_month(year: int, month: int) -> int {
    if month == 2 {
        if is_leap_year(year) {
            29
        } else {
            28
        }
    } else if month == 4 || month == 6 || month == 9 || month == 11 {
        30
    } else {
        31
    }
}

/// Whether the year, month and day name a day of the calendar.
pub open spec fn valid_ymd(year: int, month: int, day: int) -> bool {
    &&& MIN_YEAR <= year <= MAX_YEAR
    &&& 1 <= month <= 12
    &&& 1 <= day <= days_in_month(year, month)
}

/// The number of days between the first day of year 1 and the first day of `year`.
pub open spec fn days_before_year(year: int) -> int {
    let y = year - 1;
    365 * y + y / 4 - y / 100 + y / 400
}

/// The number of days of `year` that lie before the first day of `month`.
pub open spec fn days_before_month(year: int, month: int) -> int
    decreases month,
{
    if month <= 1 {
        0
    } else {
        days_before_month(year, month - 1) + days_in_month(year, month - 1)
    }
}

/// The position of a day in the count of all days, in which the first of
/// January of year 1 is day 1.
pub open spec fn day_number(year: int, month: int, day: int) -> int {
    days_before_year(year) + days_before_month(year, month) + day
}

/// The day of the week as a number from 0 for Sunday to 6 for Saturday.
/// Day 1 of the day count is a Monday.
pub open spec fn weekday_from_sunday(year: int, month: int, day: int) -> int {
    day_number(year, month, day) % 7
}

/// The year and month that follow the given month.
pub open spec fn month_after(year: int, month: int) -> (int, int) {
    if month == 12 {
        (year + 1, 1)
    } else {
        (year, month + 1)
    }
}

/// The year and month that precede the given month.
pub open spec fn month_before(year: int, month: int) -> (int, int) {
    if month == 1 {
        (year - 1, 12)
    } else {
        (year, month - 1)
    }
}

/// Stepping to the following month and then to the preceding one leads back
/// to the year and month at the start, and so does stepping the other way
/// round; from December the year goes up and comes down again.
pub proof fn lemma_month_round_trip(year: int, month: int)
    requires
        1 <= month <= 12,
    ensures
        month_before(month_after(year, month).0, month_after(year, month).1) == (year, month),
        month_after(month_before(year, month).0, month_before(year, month).1) == (year, month),
        1 <= month_after(year, month).1 <= 12,
        1 <= month_before(year, month).1 <= 12,
{
}

/// From the first day of a month to the first day of the next month it is
/// as many days as the month has.
pub proof fn lemma_month_length(year: int, month: int)
    requires
        1 <= month <= 12,
    ensures
        day_number(month_after(year, month).0, month_after(year, month).1, 1) - day_number(
            year,
            month,
            1,
        ) == days_in_month(year, month),
{
    reveal_with_fuel(days_before_month, 13);
}

/// A day of the calendar.
#[derive(Clone, Copy, Debug, PartialEq, Eq, Structural)]
pub struct Date {
    pub year: i32,
    pub month: u32,
    pub day: u32,
}

/// Whether `chrono::NaiveDate::from_ymd_opt` gives a date. It does exactly
/// when the month is between 1 and 12, the day exists in that month of that
/// year, and the year lies between `MIN_YEAR` and `MAX_YEAR`, the first and
/// the last year of chrono's dates.
#[verifier::external_body]
fn ymd_exists(year: i32, month: u32, day: u32) -> (found: bool)
    ensures
        found == valid_ymd(year as int, month as int, day as int),
{
    NaiveDate::from_ymd_opt(year, month, day).is_some()
}

/// `chrono::NaiveDate::weekday` followed by
/// `chrono::Weekday::num_days_from_sunday`, on the date that
/// `chrono::NaiveDate::from_ymd_opt` gives: the day of the week, counted from
/// 0 for Sunday. The contract takes it from the calendar itself: the first of
/// January of year 1 is a Monday, and the weekdays go round with the count
/// of days. No result where there is no such date.
#[verifier::external_body]
fn ymd_weekday(year: i32, month: u32, day: u32) -> (weekday: Option<u32>)
    ensures
        valid_ymd(year as int, month as int, day as int) ==> weekday is Some && weekday.unwrap()
            == weekday_from_sunday(year as int, month as int, day as int),
        !valid_ymd(year as int, month as int, day as int) ==> weekday is None,
{
    let date = NaiveDate::from_ymd_opt(year, month, day)?;
    Some(date.weekday().num_days_from_sunday())
}

/// `chrono::NaiveDate::signed_duration_since` followed by
/// `chrono::TimeDelta::num_days`, on the dates that
/// `chrono::NaiveDate::from_ymd_opt` gives: the number of days from the
/// first day to the second, negative where the second is the earlier one.
/// The contract states it as the difference of the places of the two days
/// in the count of days. No result where one of the two is no date.
#[verifier::external_body]
fn ymd_days_between(from: Date, to: Date) -> (days: Option<i64>)
    ensures
        from.wf() && to.wf() ==> days is Some && days.unwrap() == to.day_number()
            - from.day_number(),
        !(from.wf() && to.wf()) ==> days is None,
{
    let start = NaiveDate::from_ymd_opt(from.year, from.month, from.day)?;
    let end = NaiveDate::from_ymd_opt(to.year, to.month, to.day)?;
    Some(end.signed_duration_since(start).num_days())
}

impl Date {
    /// Whether this value names a day of the calendar.
    pub open spec fn wf(self) -> bool {
        valid_ymd(self.year as int, self.month as int, self.day as int)
    }

    /// The position of this day in the count of all days.
    pub open spec fn day_number(self) -> int {
        day_number(self.year as int, self.month as int, self.day as int)
    }

    /// Whether this day lies before the other.
    pub open spec fn precedes(self, other: Date) -> bool {
        self.year < other.year || (self.year == other.year && (self.month < other.month || (
        self.month == other.month && self.day < other.day)))
    }

    /// The date with the given year, month and day, if there is such a day.
    pub fn from_ymd_opt(year: i32, month: u32, day: u32) -> (date: Option<Date>)
        ensures
            valid_ymd(year as int, month as int, day as int) ==> date == Some(
                Date { year, month, day },
            ),
            !valid_ymd(year as int, month as int, day as int) ==> date is None,
    {
        if ymd_exists(year, month, day) {
            Some(Date { year, month, day })
        } else {
            None
        }
    }

    /// The same year and month with another day of the month, if that month
    /// has such a day.
    pub fn with_day(self, day: u32) -> (date: Option<Date>)
        ensures
            valid_ymd(self.year as int, self.month as int, day as int) ==> date == Some(
                Date { year: self.year, month: self.month, day },
            ),
            !valid_ymd(self.year as int, self.month as int, day as int) ==> date is None,
    {
        Date::from_ymd_opt(self.year, self.month, day)
    }

    /// The day of the week, from 0 for Sunday to 6 for Saturday.
    pub fn weekday(self) -> (weekday: u32)
        requires
            self.wf(),
        ensures
            weekday == weekday_from_sunday(self.year as int, self.month as int, self.day as int),
            weekday < 7,
    {
        ymd_weekday(self.year, self.month, self.day).unwrap()
    }

    /// The number of days from this day to a later one; negative where the
    /// other day is the earlier one.
    pub fn days_until(self, later: Date) -> (days: i64)
        requires
            self.wf(),
            later.wf(),
        ensures
            days == later.day_number() - self.day_number(),
    {
        ymd_days_between(self, later).unwrap()
    }
}

} // verus!
