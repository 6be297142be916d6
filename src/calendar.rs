//! The calendar date shown for the elapsed simulated time.
use vstd::prelude::*;
use chrono::Datelike;

verus! {

/// A date of the proleptic Gregorian calendar.
#[derive(Clone, Copy, PartialEq, Eq, Structural, Debug)]
pub struct CalendarDate {
    pub year: i32,
    /// From 1 to 12.
    pub month: u32,
    /// From 1 to the length of the month.
    pub day: u32,
}

/// The date `days` days after `date`; `None` when `date` is no valid date
/// or the result lies outside the range of dates that can be represented.
pub uninterp spec fn date_after_days(date: CalendarDate, days: u64) -> Option<CalendarDate>;

/// Relies on `chrono::NaiveDate::checked_add_days`, with the date converted
/// to and from `NaiveDate` by `from_ymd_opt` and `Datelike`: the result is
/// determined by the date and the number of days, and its month and day lie
/// in the calendar's ranges.
#[verifier::external_body]
fn add_days(date: CalendarDate, days: u64) -> (r: Option<CalendarDate>)
    ensures
        r == date_after_days(date, days),
        r matches Some(d) ==> 1 <= d.month <= 12 && 1 <= d.day <= 31,
{
    chrono::NaiveDate::from_ymd_opt(date.year, date.month, date.day)
        .and_then(|d| d.checked_add_days(chrono::Days::new(days)))
        .map(|d| CalendarDate { year: d.year(), month: d.month(), day: d.day() })
}

/// The calendar date at which simulated time starts: 25 November 2022.
pub open spec fn sim_epoch() -> CalendarDate {
    CalendarDate { year: 2022, month: 11, day: 25 }
}

/// The date shown after `elapsed_days` whole simulated days.
pub fn sim_date(elapsed_days: u64) -> (r: Option<CalendarDate>)
    ensures
        r == date_after_days(sim_epoch(), elapsed_days),
{
    let epoch = CalendarDate { year: 2022, month: 11, day: 25 };
    add_days(epoch, elapsed_days)
}

} // verus!
