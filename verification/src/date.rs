//! Naive calendar dates of the proleptic Gregorian calendar.

use crate::text::{digit_char, numeral};
use vstd::prelude::*;

verus! {

/// The earliest year a date may lie in.
pub const MIN_YEAR: i32 = -262143;

/// The latest year a date may lie in.
pub const MAX_YEAR: i32 = 262142;

/// Whether `year` has a 29th of February.
pub open spec fn is_leap_year(year: int) -> bool {
    year % 4 == 0 && (year % 100 != 0 || year % 400 == 0)
}

/// The number of days of `month` (1 to 12) in `year`.
pub open spec fn days_in_month(year: int, month: int) -> int {
    if month == 2 {
        if is_leap_year(year) {
            29
        } else {
            28
        }
    } else if month == 4 || month == 6 || month == 9 || month == 11 {
        30
    } else {
        31
    }
}

/// Whether year, month and day name a day of the calendar within the
/// supported years.
pub open spec fn is_date(year: int, month: int, day: int) -> bool {
    &&& MIN_YEAR <= year <= MAX_YEAR
    &&& 1 <= month <= 12
    &&& 1 <= day <= days_in_month(year, month)
}

/// A date as contracts speak of it: year, month (1 to 12) and day of the month.
pub ghost struct DateView {
    pub year: int,
    pub month: int,
    pub day: int,
}

/// A calendar date without time of day or time zone.
#[derive(Clone, Copy, Debug, PartialEq, Eq, Structural)]
pub struct CalendarDate {
    year: i32,
    month: u32,
    day: u32,
}

impl View for CalendarDate {
    type V = DateView;

    closed spec fn view(&self) -> DateView {
        DateView { year: self.year as int, month: self.month as int, day: self.day as int }
    }
}

impl CalendarDate {
    /// Every date names an existing day.
    #[verifier::type_invariant]
    pub closed spec fn valid(self) -> bool {
        is_date(self.year as int, self.month as int, self.day as int)
    }

    /// The date of the given year, month and day, if there is such a day.
    pub fn new(year: i32, month: u32, day: u32) -> (date: Option<CalendarDate>)
        ensures
            date is Some <==> is_date(year as int, month as int, day as int),
            date matches Some(d) ==> d@ == (DateView {
                year: year as int,
                month: month as int,
                day: day as int,
            }),
    {
        if year < MIN_YEAR || year > MAX_YEAR || month < 1 || month > 12 || day < 1 {
            return None;
        }
        let shifted: u32 = (year + 262400) as u32;
        let leap = shifted % 4 == 0 && (shifted % 100 != 0 || shifted % 400 == 0);
        assert(leap == is_leap_year(year as int));
        let length: u32 = if month == 2 {
            if leap {
                29
            } else {
                28
            }
        } else if month == 4 || month == 6 || month == 9 || month == 11 {
            30
        } else {
            31
        };
        if day > length {
            return None;
        }
        Some(CalendarDate { year, month, day })
    }

    /// The year.
    pub fn year(&self) -> (year: i32)
        ensures
            year == self@.year,
    {
        self.year
    }

    /// The month, from 1 to 12.
    pub fn month(&self) -> (month: u32)
        ensures
            month == self@.month,
    {
        self.month
    }

    /// The day of the month, from 1.
    pub fn day(&self) -> (day: u32)
        ensures
            day == self@.day,
    {
        self.day
    }

    /// The day after this one, unless this is the last day of the last year.
    pub fn succ(&self) -> (next: Option<CalendarDate>)
        ensures
            next is Some <==> day_after(self@).year <= MAX_YEAR,
            next matches Some(date) ==> date@ == day_after(self@),
    {
        proof {
            use_type_invariant(self);
        }
        add_one_day(*self)
    }

    /// The date as text: year, month and day, each padded with zeros, with
    /// hyphens between them.
    pub fn text(&self) -> (text: String)
        ensures
            text@ == date_text(self@),
    {
        proof {
            use_type_invariant(self);
        }
        match display_date(*self) {
            Some(text) => text,
            None => String::new(),
        }
    }
}

/// The day that follows `date`.
pub open spec fn day_after(date: DateView) -> DateView {
    if date.day < days_in_month(date.year, date.month) {
        DateView { year: date.year, month: date.month, day: date.day + 1 }
    } else if date.month < 12 {
        DateView { year: date.year, month: date.month + 1, day: 1 }
    } else {
        DateView { year: date.year + 1, month: 1, day: 1 }
    }
}

/// A number below a hundred, written with two digits.
pub open spec fn two_digits(n: int) -> Seq<char> {
    seq![digit_char((n / 10) as nat), digit_char((n % 10) as nat)]
}

/// A year as text: four digits for the years 0 to 9999; a sign and at least
/// four digits for all others.
pub open spec fn year_text(year: int) -> Seq<char> {
    let size = if year < 0 {
        -year
    } else {
        year
    };
    let digits = if size <= 9999 {
        two_digits(size / 100) + two_digits(size % 100)
    } else {
        numeral(size as nat)
    };
    if year < 0 {
        seq!['-'] + digits
    } else if year > 9999 {
        seq!['+'] + digits
    } else {
        digits
    }
}

/// A date as text: year, month and day with hyphens between them.
pub open spec fn date_text(date: DateView) -> Seq<char> {
    year_text(date.year) + seq!['-'] + two_digits(date.month) + seq!['-'] + two_digits(date.day)
}

/// What chrono reads from `text` as a date in the form year-month-day: the
/// date, or the sentence with which it refuses the text.
pub uninterp spec fn chrono_read_date(text: Seq<char>) -> Result<DateView, Seq<char>>;

/// Calls chrono's `FromStr` for `NaiveDate`, which reads a date in the form
/// year-month-day, and hands on the date it found, by its year, month and
/// day, or the sentence that `Display` of chrono's `ParseError` writes for
/// the refusal. The contract gives that result a name, and claims of a date
/// that chrono found that it is an existing day within the supported years,
/// which are the years of chrono's `NaiveDate`.
#[verifier::external_body]
pub(crate) fn read_naive_date(text: &str) -> (read: Result<CalendarDate, String>)
    ensures
        match chrono_read_date(text@) {
            Ok(date) => read matches Ok(found) && found@ == date,
            Err(refusal) => read matches Err(why) && why@ == refusal,
        },
        read is Ok ==> is_date(read.unwrap()@.year, read.unwrap()@.month, read.unwrap()@.day),
{
    match text.parse::<chrono::NaiveDate>() {
        Ok(date) => Ok(
            CalendarDate {
                year: chrono::Datelike::year(&date),
                month: chrono::Datelike::month(&date),
                day: chrono::Datelike::day(&date),
            },
        ),
        Err(refusal) => Err(refusal.to_string()),
    }
}

/// Calls chrono's `NaiveDate::checked_add_days` with one day, on the date that
/// `NaiveDate::from_ymd_opt` makes of year, month and day. The contract
/// claims that for an existing day chrono returns the following day of the
/// proleptic Gregorian calendar, and nothing exactly if that day lies beyond
/// the last year that `NaiveDate` supports.
#[verifier::external_body]
fn add_one_day(date: CalendarDate) -> (next: Option<CalendarDate>)
    requires
        is_date(date@.year, date@.month, date@.day),
    ensures
        next is Some <==> day_after(date@).year <= MAX_YEAR,
        next is Some ==> next.unwrap()@ == day_after(date@),
{
    let today = chrono::NaiveDate::from_ymd_opt(date.year, date.month, date.day)?;
    let tomorrow = today.checked_add_days(chrono::Days::new(1))?;
    Some(
        CalendarDate {
            year: chrono::Datelike::year(&tomorrow),
            month: chrono::Datelike::month(&tomorrow),
            day: chrono::Datelike::day(&tomorrow),
        },
    )
}

/// Calls chrono's `Display` for the `NaiveDate` that `NaiveDate::from_ymd_opt`
/// makes of year, month and day. The contract claims that for an existing day
/// chrono writes the year, with four digits from 0 to 9999 and with a sign
/// and at least four digits otherwise, then the month and the day with two
/// digits each, with hyphens between them.
#[verifier::external_body]
fn display_date(date: CalendarDate) -> (text: Option<String>)
    requires
        is_date(date@.year, date@.month, date@.day),
    ensures
        text is Some,
        text.unwrap()@ == date_text(date@),
{
    let date = chrono::NaiveDate::from_ymd_opt(date.year, date.month, date.day)?;
    Some(date.to_string())
}

/// Two dates with the same year, month and day are the same date.
pub proof fn lemma_dates_with_one_view_are_one(a: CalendarDate, b: CalendarDate)
    requires
        a@ == b@,
    ensures
        a == b,
{
}

} // verus!
