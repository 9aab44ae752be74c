//! Calendar dates: the day an order was placed, and the text the store shows for
//! it.

use vstd::prelude::*;
use vstd::string::*;
use crate::numeral::decimal;

verus! {

/// The earliest year a date can have.
pub const MIN_YEAR: i32 = -262143;

/// The latest year a date can have.
pub const MAX_YEAR: i32 = 262142;

/// Whether `year` is a leap year of the proleptic Gregorian calendar.
pub open spec fn is_leap_year(year: int) -> bool {
    year % 4 == 0 && (year % 100 != 0 || year % 400 == 0)
}

/// The number of days of a month.
pub open spec fn days_in_month(year: int, month: int) -> int {
    if month == 2 {
        if is_leap_year(year) {
            29
        } else {
            28
        }
    } else if month == 4 || month == 6 || month == 9 || month == 11 {
        30
    } else {
        31
    }
}

/// Whether year, month and day name a day of the calendar.
pub open spec fn is_calendar_date(year: int, month: int, day: int) -> bool {
    &&& MIN_YEAR <= year <= MAX_YEAR
    &&& 1 <= month <= 12
    &&& 1 <= day <= days_in_month(year, month)
}

/// `n` in decimal, with zeros in front up to `width` characters.
pub open spec fn zero_padded(n: nat, width: nat) -> Seq<char> {
    let digits = decimal(n);
    if digits.len() >= width {
        digits
    } else {
        Seq::new((width - digits.len()) as nat, |i: int| '0') + digits
    }
}

/// The text of a year: four digits from 0 to 9999, otherwise a sign and at least
/// four digits.
pub open spec fn year_text(year: int) -> Seq<char> {
    if 0 <= year <= 9999 {
        zero_padded(year as nat, 4)
    } else if year < 0 {
        seq!['-'] + zero_padded((-year) as nat, 4)
    } else {
        seq!['+'] + zero_padded(year as nat, 4)
    }
}

/// The text of a date: year, month and day with `-` between, month and day in two
/// digits.
pub open spec fn date_text(year: int, month: int, day: int) -> Seq<char> {
    year_text(year) + seq!['-'] + zero_padded(month as nat, 2) + seq!['-'] + zero_padded(
        day as nat,
        2,
    )
}

/// A day of the calendar.
#[derive(Debug, Clone, Copy, PartialEq, Eq, Structural)]
pub struct Date {
    year: i32,
    month: u32,
    day: u32,
}

/// Calls `chrono::Local::now`, takes the date of it with `DateTime::date_naive`, and
/// reads year, month and day with `Datelike`. What comes back depends on the clock
/// and the time zone; the contract claims only that it is a day of the calendar.
#[verifier::external_body]
fn local_today() -> (d: Date)
    ensures
        d.wf(),
{
    let today = chrono::Local::now().date_naive();
    Date {
        year: chrono::Datelike::year(&today),
        month: chrono::Datelike::month(&today),
        day: chrono::Datelike::day(&today),
    }
}

/// Calls `chrono::NaiveDate::from_ymd_opt` and writes the date with the `Display`
/// of `NaiveDate`. The contract claims that a day of the calendar is accepted, and
/// that its text is `%Y-%m-%d` as chrono documents it: four-digit years from 0 to
/// 9999, signed years otherwise, and two digits each for month and day.
#[verifier::external_body]
fn naive_date_text(year: i32, month: u32, day: u32) -> (r: Option<String>)
    ensures
        is_calendar_date(year as int, month as int, day as int) ==> r is Some,
        r matches Some(text) ==> text@ == date_text(year as int, month as int, day as int),
{
    match chrono::NaiveDate::from_ymd_opt(year, month, day) {
        Some(date) => Some(date.to_string()),
        None => None,
    }
}

fn leap_year(year: i32) -> (r: bool)
    requires
        MIN_YEAR <= year <= MAX_YEAR,
    ensures
        r == is_leap_year(year as int),
{
    let shifted: i32 = year + 262400;
    assert(shifted as int % 4 == 0 <==> year as int % 4 == 0);
    assert(shifted as int % 100 == 0 <==> year as int % 100 == 0);
    assert(shifted as int % 400 == 0 <==> year as int % 400 == 0);
    shifted % 4 == 0 && (shifted % 100 != 0 || shifted % 400 == 0)
}

impl Date {
    #[verifier::type_invariant]
    spec fn on_calendar(self) -> bool {
        self.wf()
    }

    /// The year.
    pub closed spec fn spec_year(self) -> i32 {
        self.year
    }

    /// The month, from 1 to 12.
    pub closed spec fn spec_month(self) -> u32 {
        self.month
    }

    /// The day of the month, from 1.
    pub closed spec fn spec_day(self) -> u32 {
        self.day
    }

    /// What holds of every date: it names a day of the calendar.
    pub open spec fn wf(self) -> bool {
        is_calendar_date(self.spec_year() as int, self.spec_month() as int, self.spec_day() as int)
    }

    /// The text of this date.
    pub open spec fn text(self) -> Seq<char> {
        date_text(self.spec_year() as int, self.spec_month() as int, self.spec_day() as int)
    }

    /// The date of the given year, month and day, or `None` where the calendar has
    /// no such day.
    pub fn new(year: i32, month: u32, day: u32) -> (r: Option<Date>)
        ensures
            match r {
                Some(d) => d.spec_year() == year && d.spec_month() == month && d.spec_day() == day
                    && d.wf(),
                None => !is_calendar_date(year as int, month as int, day as int),
            },
    {
        if year < MIN_YEAR || year > MAX_YEAR || month < 1 || month > 12 || day < 1 {
            return None;
        }
        let days: u32 = if month == 2 {
            if leap_year(year) {
                29
            } else {
                28
            }
        } else if month == 4 || month == 6 || month == 9 || month == 11 {
            30
        } else {
            31
        };
        if day > days {
            None
        } else {
            Some(Date { year, month, day })
        }
    }

    /// The year.
    pub fn year(&self) -> (y: i32)
        ensures
            y == self.spec_year(),
            self.wf(),
    {
        proof {
            use_type_invariant(self);
        }
        self.year
    }

    /// The month.
    pub fn month(&self) -> (m: u32)
        ensures
            m == self.spec_month(),
    {
        self.month
    }

    /// The day of the month.
    pub fn day(&self) -> (d: u32)
        ensures
            d == self.spec_day(),
    {
        self.day
    }

    /// The day it is now, by the local clock. Two calls may differ.
    pub fn today() -> (d: Date)
        ensures
            d.wf(),
    {
        local_today()
    }

    /// The date as `YYYY-MM-DD`.
    pub fn to_string(&self) -> (s: String)
        ensures
            s@ == self.text(),
    {
        proof {
            use_type_invariant(self);
        }
        match naive_date_text(self.year, self.month, self.day) {
            Some(text) => text,
            None => {
                proof {
                    assert(false);
                }
                String::new()
            },
        }
    }
}

} // verus!
