//! Calendar dates of the proleptic Gregorian calendar, as the due date of a payment.
use vstd::prelude::*;

verus! {

/// Whether `year` is a leap year of the Gregorian calendar.
pub open spec fn is_leap_year(year: int) -> bool {
    year % 4 == 0 && (year % 100 != 0 || year % 400 == 0)
}

/// The number of days in `month` (1 to 12) of `year`.
pub open spec fn days_in_month(year: int, month: int) -> int {
    if month == 2 {
        if is_leap_year(year) {
            29
        } else {
            28
        }
    } else if month == 4 || month == 6 || month == 9 || month == 11 {
        30
    } else {
        31
    }
}

/// Whether `year`, `month` and `day` name a day that the calendar has, within the years
/// -9999 to 9999.
pub open spec fn is_calendar_date(year: int, month: int, day: int) -> bool {
    -9999 <= year <= 9999 && 1 <= month <= 12 && 1 <= day <= days_in_month(year, month)
}

/// Relies on `time::Month::try_from(u8)` and `time::Date::from_calendar_date`: the month is
/// accepted from 1 to 12, and the date when the year lies in -9999..=9999 and the day in
/// 1..=days of that month. The error is the component range that was missed.
#[verifier::external_body]
fn checked_calendar_date(year: i32, month: u8, day: u8) -> (r: Result<(), time::error::ComponentRange>)
    ensures
        r is Ok <==> is_calendar_date(year as int, month as int, day as int),
{
    let month = time::Month::try_from(month)?;
    time::Date::from_calendar_date(year, month, day).map(|_| ())
}

/// A real calendar date.
#[derive(Clone, Copy, Debug)]
pub struct CalendarDate {
    year: i32,
    month: u8,
    day: u8,
}

impl View for CalendarDate {
    type V = (int, int, int);

    closed spec fn view(&self) -> (int, int, int) {
        (self.year as int, self.month as int, self.day as int)
    }
}

impl CalendarDate {
    #[verifier::type_invariant]
    spec fn inv(&self) -> bool {
        is_calendar_date(self.year as int, self.month as int, self.day as int)
    }

    /// The date with these components, or the range error of the component that is out of
    /// range.
    pub fn new(year: i32, month: u8, day: u8) -> (r: Result<CalendarDate, time::error::ComponentRange>)
        ensures
            r is Ok <==> is_calendar_date(year as int, month as int, day as int),
            r matches Ok(d) ==> d@ == (year as int, month as int, day as int),
    {
        match checked_calendar_date(year, month, day) {
            Ok(()) => Ok(CalendarDate { year, month, day }),
            Err(e) => Err(e),
        }
    }

    /// The calendar's rules hold of every date.
    pub fn valid(&self)
        ensures
            is_calendar_date(self@.0, self@.1, self@.2),
    {
        proof {
            use_type_invariant(self);
        }
    }

    pub fn year(&self) -> (r: i32)
        ensures
            r as int == self@.0,
    {
        self.year
    }

    pub fn month(&self) -> (r: u8)
        ensures
            r as int == self@.1,
    {
        self.month
    }

    pub fn day(&self) -> (r: u8)
        ensures
            r as int == self@.2,
    {
        self.day
    }
}

#[verifier::external_type_specification]
#[verifier::external_body]
pub struct ExComponentRange(time::error::ComponentRange);

} // verus!
