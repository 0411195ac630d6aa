//! Reading the departure date and time typed into the new-ride form
//! (`%Y-%m-%d` and `%H:%M`, as the form's date and time inputs send them).

use vstd::prelude::*;

verus! {

/// A calendar date.
#[derive(Clone, Copy, Debug)]
pub struct CalendarDate {
    pub year: i32,
    /// 1 to 12.
    pub month: u32,
    /// 1 to 31.
    pub day: u32,
}

/// A time of day to the minute.
#[derive(Clone, Copy, Debug)]
pub struct ClockTime {
    /// 0 to 23.
    pub hour: u32,
    /// 0 to 59.
    pub minute: u32,
}

/// What `chrono::NaiveDate::parse_from_str(text, "%Y-%m-%d")` makes of `text`:
/// year, month and day, or `None` where it refuses the text.
pub uninterp spec fn date_parse(text: Seq<char>) -> Option<(i32, u32, u32)>;

/// What `chrono::NaiveTime::parse_from_str(text, "%H:%M")` makes of `text`:
/// hour and minute, or `None` where it refuses the text.
pub uninterp spec fn time_parse(text: Seq<char>) -> Option<(u32, u32)>;

/// Parses a date through `chrono::NaiveDate::parse_from_str` with the format
/// `%Y-%m-%d`. The result is named by `date_parse`; of it only what every
/// `NaiveDate` satisfies is claimed, a month from 1 to 12 and a day from 1 to 31.
#[verifier::external_body]
fn chrono_parse_date(text: &str) -> (r: Option<(i32, u32, u32)>)
    ensures
        r == date_parse(text@),
        r matches Some((y, m, d)) ==> 1 <= m <= 12 && 1 <= d <= 31,
{
    match chrono::NaiveDate::parse_from_str(text, "%Y-%m-%d") {
        Ok(date) => Some((
            chrono::Datelike::year(&date),
            chrono::Datelike::month(&date),
            chrono::Datelike::day(&date),
        )),
        Err(_) => None,
    }
}

/// Parses a time through `chrono::NaiveTime::parse_from_str` with the format
/// `%H:%M`. The result is named by `time_parse`; of it only what every such
/// `NaiveTime` satisfies is claimed, an hour below 24 and a minute below 60.
#[verifier::external_body]
fn chrono_parse_time(text: &str) -> (r: Option<(u32, u32)>)
    ensures
        r == time_parse(text@),
        r matches Some((h, m)) ==> h < 24 && m < 60,
{
    match chrono::NaiveTime::parse_from_str(text, "%H:%M") {
        Ok(time) => Some((chrono::Timelike::hour(&time), chrono::Timelike::minute(&time))),
        Err(_) => None,
    }
}

/// The departure date typed into the form, or `None` where it is no date.
pub fn parse_departure_date(text: &str) -> (r: Option<CalendarDate>)
    ensures
        match date_parse(text@) {
            Some((y, m, d)) => r matches Some(date) && date.year == y && date.month == m && date.day == d,
            None => r is None,
        },
        r matches Some(date) ==> 1 <= date.month <= 12 && 1 <= date.day <= 31,
{
    match chrono_parse_date(text) {
        Some((year, month, day)) => Some(CalendarDate { year, month, day }),
        None => None,
    }
}

/// The departure time typed into the form, or `None` where it is no time.
pub fn parse_departure_time(text: &str) -> (r: Option<ClockTime>)
    ensures
        match time_parse(text@) {
            Some((h, m)) => r matches Some(time) && time.hour == h && time.minute == m,
            None => r is None,
        },
        r matches Some(time) ==> time.hour < 24 && time.minute < 60,
{
    match chrono_parse_time(text) {
        Some((hour, minute)) => Some(ClockTime { hour, minute }),
        None => None,
    }
}

} // verus!
