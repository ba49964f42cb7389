use vstd::prelude::*;

use crate::text::digit_char;

verus! {

/// The smallest and the largest year of the calendar that dates cover.
pub const MIN_YEAR: i32 = -262143;

pub const MAX_YEAR: i32 = 262142;

/// Whether a year of the proleptic Gregorian calendar is a leap year.
pub open spec fn is_leap_year(year: int) -> bool {
    year % 4 == 0 && (year % 100 != 0 || year % 400 == 0)
}

/// The number of days of a month (1 to 12) of a year.
pub open spec fn days_in_month(year: int, month: int) -> int {
    if month == 2 {
        if is_leap_year(year) {
            29
        } else {
            28
        }
    } else if month == 4 || month == 6 || month == 9 || month == 11 {
        30
    } else {
        31
    }
}

/// Whether year, month and day name a day of the calendar that dates cover.
pub open spec fn is_calendar_date(year: int, month: int, day: int) -> bool {
    &&& MIN_YEAR <= year <= MAX_YEAR
    &&& 1 <= month <= 12
    &&& 1 <= day <= days_in_month(year, month)
}

/// The last `width` decimal digits of `n`, with leading zeros.
pub open spec fn padded_digits(n: nat, width: nat) -> Seq<char>
    decreases width,
{
    if width == 0 {
        Seq::empty()
    } else {
        padded_digits(n / 10, (width - 1) as nat).push(digit_char((n % 10) as int))
    }
}

/// A date written as `YYYY-MM-DD`.
pub open spec fn iso_date(year: nat, month: nat, day: nat) -> Seq<char> {
    padded_digits(year, 4) + seq!['-'] + padded_digits(month, 2) + seq!['-'] + padded_digits(day, 2)
}

/// How a date is written: `YYYY-MM-DD`, with a sign and more digits for a
/// year beyond 0 to 9999.
pub uninterp spec fn date_display(year: int, month: int, day: int) -> Seq<char>;

/// Relies on `chrono::NaiveDate::from_ymd_opt`, which gives a date exactly
/// for a day of the calendar between its smallest and largest year, and on
/// `NaiveDate`'s `Display`, which writes a year from 0 to 9999 as
/// `YYYY-MM-DD`.
#[verifier::external_body]
fn calendar_date_text(year: i32, month: u32, day: u32) -> (r: Option<String>)
    ensures
        r is Some <==> is_calendar_date(year as int, month as int, day as int),
        r is Some ==> r->Some_0@ == date_display(year as int, month as int, day as int),
        r is Some && 0 <= year <= 9999 ==> r->Some_0@ == iso_date(
            year as nat,
            month as nat,
            day as nat,
        ),
{
    chrono::NaiveDate::from_ymd_opt(year, month, day).map(|d| d.to_string())
}

/// A day of the calendar, as used by the date filters of the service.
#[derive(Debug, Clone, Copy, PartialEq, Eq)]
#[verifier::type_invariant]
pub struct Date {
    year: i32,
    month: u32,
    day: u32,
}

impl Date {
    /// The year, month and day.
    pub closed spec fn ymd(self) -> (int, int, int) {
        (self.year as int, self.month as int, self.day as int)
    }

    /// Every date is a day of the calendar.
    #[verifier::type_invariant]
    closed spec fn wf(self) -> bool {
        is_calendar_date(self.year as int, self.month as int, self.day as int)
    }

    /// How the date is written: `YYYY-MM-DD` for the years 0 to 9999.
    pub open spec fn text(self) -> Seq<char> {
        if 0 <= self.ymd().0 <= 9999 {
            iso_date(self.ymd().0 as nat, self.ymd().1 as nat, self.ymd().2 as nat)
        } else {
            date_display(self.ymd().0, self.ymd().1, self.ymd().2)
        }
    }

    /// The date of a year, month and day; `None` where that day does not
    /// exist.
    pub fn from_ymd(year: i32, month: u32, day: u32) -> (r: Option<Date>)
        ensures
            r is Some <==> is_calendar_date(year as int, month as int, day as int),
            r is Some ==> r->Some_0.ymd() == (year as int, month as int, day as int),
    {
        match calendar_date_text(year, month, day) {
            Some(_) => Some(Date { year, month, day }),
            None => None,
        }
    }

    /// The year.
    pub fn year(&self) -> (r: i32)
        ensures
            r as int == self.ymd().0,
    {
        self.year
    }

    /// The month, from 1 to 12.
    pub fn month(&self) -> (r: u32)
        ensures
            r as int == self.ymd().1,
    {
        self.month
    }

    /// The day of the month.
    pub fn day(&self) -> (r: u32)
        ensures
            r as int == self.ymd().2,
    {
        self.day
    }

    /// The date as the service reads it: `YYYY-MM-DD` for the years 0 to 9999.
    pub fn to_text(&self) -> (r: String)
        ensures
            r@ == self.text(),
    {
        proof {
            use_type_invariant(self);
        }
        calendar_date_text(self.year, self.month, self.day).unwrap()
    }
}

} // verus!
