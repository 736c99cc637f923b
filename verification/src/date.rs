//! Calendar days, the age of a person and the distance between two days.

use crate::text::digit_char;
use vstd::prelude::*;

verus! {

/// Whether `year` has a 29th of February in the Gregorian calendar.
pub open spec fn is_leap_year(year: int) -> bool {
    year % 4 == 0 && (year % 100 != 0 || year % 400 == 0)
}

/// Number of days of `month` in `year`.
pub open spec fn days_in_month(year: int, month: int) -> int {
    if month == 2 {
        if is_leap_year(year) {
            29
        } else {
            28
        }
    } else if month == 4 || month == 6 || month == 9 || month == 11 {
        30
    } else {
        31
    }
}

/// Whether year, month and day name a day that exists, in the years 1 to 9999.
pub open spec fn is_calendar_day(year: int, month: int, day: int) -> bool {
    &&& 1 <= year <= 9999
    &&& 1 <= month <= 12
    &&& 1 <= day <= days_in_month(year, month)
}

/// A day of the proleptic Gregorian calendar, between 0001-01-01 and 9999-12-31.
#[derive(Clone, Copy, Debug, PartialEq, Eq)]
pub struct Date {
    year: i32,
    month: u32,
    day: u32,
}

/// The text `YYYY-MM-DD` of a day, every field padded with zeros.
pub open spec fn iso_text(year: int, month: int, day: int) -> Seq<char> {
    seq![
        digit_char(year / 1000),
        digit_char(year / 100 % 10),
        digit_char(year / 10 % 10),
        digit_char(year % 10),
        '-',
        digit_char(month / 10),
        digit_char(month % 10),
        '-',
        digit_char(day / 10),
        digit_char(day % 10),
    ]
}

/// The signed number of whole days from the first day to the second.
pub uninterp spec fn days_from_to(
    from_year: int,
    from_month: int,
    from_day: int,
    to_year: int,
    to_month: int,
    to_day: int,
) -> int;

/// The days from `from` to `to`, negative where `to` is the earlier day.
pub open spec fn days_between(from: Date, to: Date) -> int {
    days_from_to(
        from.year() as int,
        from.month() as int,
        from.day() as int,
        to.year() as int,
        to.month() as int,
        to.day() as int,
    )
}

/// The text `YYYY-MM-DD` of `date`.
pub open spec fn date_text(date: Date) -> Seq<char> {
    iso_text(date.year() as int, date.month() as int, date.day() as int)
}

/// Whole years from `from` to `to`: the difference of the years, less one
/// where the month and day of `to` come before those of `from`.
pub open spec fn whole_years(from: Date, to: Date) -> int {
    let before = to.month() < from.month() || (to.month() == from.month() && to.day() < from.day());
    to.year() - from.year() - if before {
        1int
    } else {
        0int
    }
}

/// The age in whole years, kept within 0 and 255.
pub open spec fn age_in_years(birth: Date, on: Date) -> int {
    let years = whole_years(birth, on);
    if years < 0 {
        0
    } else if years > 255 {
        255
    } else {
        years
    }
}

/// `NaiveDate::from_ymd_opt`, `NaiveDate::signed_duration_since` and
/// `TimeDelta::num_days` of chrono: the whole days from `from` to `to`,
/// negative where `to` is the earlier day. The count is a function of the two
/// days alone; the contract gives it a name and says nothing more of it.
#[verifier::external_body]
fn chrono_days_between(from: &Date, to: &Date) -> (days: i64)
    requires
        is_calendar_day(from.year() as int, from.month() as int, from.day() as int),
        is_calendar_day(to.year() as int, to.month() as int, to.day() as int),
    ensures
        days == days_from_to(
            from.year() as int,
            from.month() as int,
            from.day() as int,
            to.year() as int,
            to.month() as int,
            to.day() as int,
        ),
{
    let start = chrono::NaiveDate::from_ymd_opt(from.year, from.month, from.day).unwrap();
    let end = chrono::NaiveDate::from_ymd_opt(to.year, to.month, to.day).unwrap();
    end.signed_duration_since(start).num_days()
}

/// `NaiveDate::from_ymd_opt` and `NaiveDate::format` of chrono with the
/// pattern `%Y-%m-%d`: four digits of the year, two of the month and two of
/// the day, padded with zeros and joined by hyphens. Years 1 to 9999 take no
/// sign.
#[verifier::external_body]
fn chrono_iso_text(date: &Date) -> (text: String)
    requires
        is_calendar_day(date.year() as int, date.month() as int, date.day() as int),
    ensures
        text@ == iso_text(date.year() as int, date.month() as int, date.day() as int),
{
    let day = chrono::NaiveDate::from_ymd_opt(date.year, date.month, date.day).unwrap();
    day.format("%Y-%m-%d").to_string()
}

impl Date {
    #[verifier::type_invariant]
    spec fn exists_in_calendar(self) -> bool {
        is_calendar_day(self.year as int, self.month as int, self.day as int)
    }

    /// The year, 1 to 9999.
    pub closed spec fn spec_year(&self) -> i32 {
        self.year
    }

    /// The month, 1 to 12.
    pub closed spec fn spec_month(&self) -> u32 {
        self.month
    }

    /// The day of the month, from 1.
    pub closed spec fn spec_day(&self) -> u32 {
        self.day
    }

    /// What holds of every day that was built by `Date::new`.
    pub open spec fn wf(self) -> bool {
        is_calendar_day(self.year() as int, self.month() as int, self.day() as int)
    }

    /// The day `year`-`month`-`day`, if the calendar has it and the year is
    /// within 1 and 9999.
    pub fn new(year: i32, month: u32, day: u32) -> (date: Option<Date>)
        ensures
            date is Some <==> is_calendar_day(year as int, month as int, day as int),
            date matches Some(d) ==> d.year() == year && d.month() == month && d.day() == day,
    {
        if year < 1 || year > 9999 || month < 1 || month > 12 || day < 1 {
            return None;
        }
        let leap: bool = year % 4 == 0 && (year % 100 != 0 || year % 400 == 0);
        let length: u32 = if month == 2 {
            if leap {
                29
            } else {
                28
            }
        } else if month == 4 || month == 6 || month == 9 || month == 11 {
            30
        } else {
            31
        };
        if day > length {
            return None;
        }
        Some(Date { year, month, day })
    }

    /// The year of this day.
    #[verifier::when_used_as_spec(spec_year)]
    pub fn year(&self) -> (year: i32)
        ensures
            year == self.year(),
            1 <= year <= 9999,
    {
        proof {
            use_type_invariant(self);
        }
        self.year
    }

    /// The month of this day.
    #[verifier::when_used_as_spec(spec_month)]
    pub fn month(&self) -> (month: u32)
        ensures
            month == self.month(),
            1 <= month <= 12,
    {
        proof {
            use_type_invariant(self);
        }
        self.month
    }

    /// The day of the month of this day.
    #[verifier::when_used_as_spec(spec_day)]
    pub fn day(&self) -> (day: u32)
        ensures
            day == self.day(),
            1 <= day <= days_in_month(self.year() as int, self.month() as int),
    {
        proof {
            use_type_invariant(self);
        }
        self.day
    }

    /// The age, on the day `on`, of someone born on this day: whole years,
    /// rounded down, 0 before the birth and at most 255.
    pub fn age_on(&self, on: &Date) -> (age: u8)
        ensures
            age == age_in_years(*self, *on),
    {
        proof {
            use_type_invariant(self);
            use_type_invariant(on);
        }
        let before: bool = on.month < self.month || (on.month == self.month && on.day < self.day);
        let mut years: i32 = on.year - self.year;
        if before {
            years = years - 1;
        }
        if years < 0 {
            0
        } else if years > 255 {
            255
        } else {
            years as u8
        }
    }

    /// The whole days from this day to `to`, negative where `to` is earlier.
    pub fn days_until(&self, to: &Date) -> (days: i64)
        ensures
            days == days_between(*self, *to),
    {
        proof {
            use_type_invariant(self);
            use_type_invariant(to);
        }
        chrono_days_between(self, to)
    }

    /// The text `YYYY-MM-DD` of this day.
    pub fn to_iso_text(&self) -> (text: String)
        ensures
            text@ == date_text(*self),
    {
        proof {
            use_type_invariant(self);
        }
        chrono_iso_text(self)
    }
}

} // verus!
