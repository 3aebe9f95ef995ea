//! Calendar dates, quarters and the reporting window a task targets.

use vstd::prelude::*;
use chrono::{Datelike, Days, NaiveDate};

verus! {

/// A calendar date as plain numbers.
#[derive(Clone, Copy, Debug, PartialEq, Eq, Structural)]
pub struct Date {
    pub year: i32,
    pub month: u32,
    pub day: u32,
}

/// A quarter of the year.
#[derive(Clone, Copy, Debug, PartialEq, Eq, Structural)]
pub enum Quarter {
    Q1,
    Q2,
    Q3,
    Q4,
}

/// The reporting period a task brings up to date.
#[derive(Clone, Copy, Debug, PartialEq, Eq, Structural)]
pub struct ReportingWindow {
    pub year: i32,
    pub quarter: Quarter,
}

/// How many days a quarterly report is given to appear before it is chased.
pub const QUARTER_LOOKBACK_DAYS: u64 = 125;

/// The quarter a month falls in; `None` outside `1..=12`.
pub open spec fn quarter_of_month(month: int) -> Option<Quarter> {
    if 1 <= month <= 3 {
        Some(Quarter::Q1)
    } else if 4 <= month <= 6 {
        Some(Quarter::Q2)
    } else if 7 <= month <= 9 {
        Some(Quarter::Q3)
    } else if 10 <= month <= 12 {
        Some(Quarter::Q4)
    } else {
        None
    }
}

/// The label a quarter is stored under.
pub open spec fn quarter_label(quarter: Quarter) -> Seq<char> {
    match quarter {
        Quarter::Q1 => seq!['Q', '1'],
        Quarter::Q2 => seq!['Q', '2'],
        Quarter::Q3 => seq!['Q', '3'],
        Quarter::Q4 => seq!['Q', '4'],
    }
}

/// The date `days` days before the given one, as the calendar library
/// computes it: `None` when the given numbers are no date or the result
/// leaves the range of dates it can hold.
pub uninterp spec fn date_minus_days(year: int, month: int, day: int, days: int) -> Option<
    (int, int, int),
>;

/// The window that `today` and a lookback of `days` select: the year and
/// quarter of the day that lies `days` days back.
pub open spec fn window_before(today: Date, days: int) -> Option<ReportingWindow> {
    match date_minus_days(today.year as int, today.month as int, today.day as int, days) {
        Some((year, month, _)) => match quarter_of_month(month) {
            Some(quarter) => Some(ReportingWindow { year: year as i32, quarter }),
            None => None,
        },
        None => None,
    }
}

/// Maps a month number to its quarter.
pub fn month_to_quarter(month: u32) -> (quarter: Option<Quarter>)
    ensures
        quarter == quarter_of_month(month as int),
{
    if month < 1 || month > 12 {
        None
    } else if month <= 3 {
        Some(Quarter::Q1)
    } else if month <= 6 {
        Some(Quarter::Q2)
    } else if month <= 9 {
        Some(Quarter::Q3)
    } else {
        Some(Quarter::Q4)
    }
}

impl Quarter {
    /// The text a quarter is stored under: `Q1` to `Q4`.
    pub fn label(&self) -> (text: String)
        ensures
            text@ == quarter_label(*self),
    {
        proof {
            reveal_strlit("Q1");
            reveal_strlit("Q2");
            reveal_strlit("Q3");
            reveal_strlit("Q4");
        }
        let text = match self {
            Quarter::Q1 => String::from_str("Q1"),
            Quarter::Q2 => String::from_str("Q2"),
            Quarter::Q3 => String::from_str("Q3"),
            Quarter::Q4 => String::from_str("Q4"),
        };
        assert(text@ =~= quarter_label(*self));
        text
    }
}

/// `chrono::NaiveDate::from_ymd_opt`, `NaiveDate::checked_sub_days` and the
/// `Datelike` getters: the day that lies `days` days before `date`.  Trusted:
/// the result is a function of the four numbers alone, and a date that comes
/// back has its month in `1..=12` and its day in `1..=31`.
#[verifier::external_body]
fn days_before(date: Date, days: u64) -> (earlier: Option<Date>)
    ensures
        match earlier {
            Some(d) => {
                &&& date_minus_days(date.year as int, date.month as int, date.day as int, days as int)
                    == Some((d.year as int, d.month as int, d.day as int))
                &&& 1 <= d.month <= 12
                &&& 1 <= d.day <= 31
            },
            None => date_minus_days(
                date.year as int,
                date.month as int,
                date.day as int,
                days as int,
            ) is None,
        },
{
    let start = NaiveDate::from_ymd_opt(date.year, date.month, date.day)?;
    let earlier = start.checked_sub_days(Days::new(days))?;
    Some(Date { year: earlier.year(), month: earlier.month(), day: earlier.day() })
}

/// The reporting window that lies `days` days before `today`.
///
/// `None` when `today` is no calendar date or the earlier day cannot be
/// represented.
pub fn target_window(today: Date, days: u64) -> (window: Option<ReportingWindow>)
    ensures
        window == window_before(today, days as int),
{
    match days_before(today, days) {
        Some(earlier) => window_of(earlier),
        None => None,
    }
}

/// The date a text in the form year-month-day stands for, as the calendar
/// library reads it: `None` where it reads no date.
pub uninterp spec fn parsed_date(text: Seq<char>) -> Option<(int, int, int)>;

/// The text of a date in the form year-month-day, as the calendar library
/// writes it: `None` where the numbers are no date.
pub uninterp spec fn formatted_date(year: int, month: int, day: int) -> Option<Seq<char>>;

/// `chrono::NaiveDate::parse_from_str` with the format `%Y-%m-%d`.
/// Trusted: the result is a function of the text alone, and a date that
/// comes back has its month in `1..=12` and its day in `1..=31`.
#[verifier::external_body]
fn parse_from_str(text: &str) -> (date: Option<Date>)
    ensures
        match date {
            Some(d) => {
                &&& parsed_date(text@) == Some((d.year as int, d.month as int, d.day as int))
                &&& 1 <= d.month <= 12
                &&& 1 <= d.day <= 31
            },
            None => parsed_date(text@) is None,
        },
{
    match NaiveDate::parse_from_str(text, "%Y-%m-%d") {
        Ok(date) => Some(Date { year: date.year(), month: date.month(), day: date.day() }),
        Err(_) => None,
    }
}

/// `chrono::NaiveDate::from_ymd_opt` and `NaiveDate::format` with the format
/// `%Y-%m-%d`.  Trusted: the result is a function of the three numbers
/// alone.
#[verifier::external_body]
fn format_date(date: Date) -> (text: Option<String>)
    ensures
        match text {
            Some(t) => formatted_date(date.year as int, date.month as int, date.day as int)
                == Some(t@),
            None => formatted_date(date.year as int, date.month as int, date.day as int) is None,
        },
{
    let day = NaiveDate::from_ymd_opt(date.year, date.month, date.day)?;
    Some(day.format("%Y-%m-%d").to_string())
}

/// The date that a parsed text stands for.
pub open spec fn date_of(parsed: Option<(int, int, int)>) -> Option<Date> {
    match parsed {
        Some((year, month, day)) => Some(
            Date { year: year as i32, month: month as u32, day: day as u32 },
        ),
        None => None,
    }
}

impl Date {
    /// Reads a date in the form year-month-day.
    pub fn parse(text: &str) -> (date: Option<Date>)
        ensures
            date == date_of(parsed_date(text@)),
            date matches Some(d) ==> 1 <= d.month <= 12 && 1 <= d.day <= 31,
    {
        parse_from_str(text)
    }

    /// Writes the date in the form year-month-day; `None` where the
    /// numbers are no date.
    pub fn format(&self) -> (text: Option<String>)
        ensures
            text is Some <==> formatted_date(
                self.year as int,
                self.month as int,
                self.day as int,
            ) is Some,
            text matches Some(t) ==> Some(t@) == formatted_date(
                self.year as int,
                self.month as int,
                self.day as int,
            ),
    {
        format_date(*self)
    }
}

/// Chooses the window from the day that lies `days` days back: its year and
/// the quarter of its month.
pub fn window_of(earlier: Date) -> (window: Option<ReportingWindow>)
    ensures
        window == match quarter_of_month(earlier.month as int) {
            Some(quarter) => Some(ReportingWindow { year: earlier.year, quarter }),
            None => None,
        },
{
    match month_to_quarter(earlier.month) {
        Some(quarter) => Some(ReportingWindow { year: earlier.year, quarter }),
        None => None,
    }
}

} // verus!
