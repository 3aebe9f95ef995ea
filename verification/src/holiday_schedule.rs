//! The holiday schedule of the exchange: which days the market is closed.

use vstd::prelude::*;
use crate::calendar::{date_of, parsed_date, Date};
use crate::text::{contains, contains_text, decimal_text, is_ok, is_ok_text, render_i64};

verus! {

/// What the status of a response says.
#[derive(Clone, Copy, Debug, PartialEq, Eq, Structural)]
pub enum StatCheck {
    /// The status is `OK`, in any case of letters.
    Accepted,
    /// The status is something else.
    BadStatus,
    /// The response has no status.
    Malformed,
}

/// What the status of a response says.
pub open spec fn stat_check(stat: Option<Seq<char>>) -> StatCheck {
    match stat {
        None => StatCheck::Malformed,
        Some(text) => if is_ok_text(text) {
            StatCheck::Accepted
        } else {
            StatCheck::BadStatus
        },
    }
}

/// The words that mark a row as the first trading day of the year, which is
/// no holiday.
pub open spec fn trading_starts_mark() -> Seq<char> {
    "開始交易"@
}

/// The holiday a row of the schedule names, if it names one: a row has at
/// least three cells, the first holds the date, and the third must not
/// mark the start of trading.
pub open spec fn row_holiday(row: Seq<String>) -> Option<Date> {
    if row.len() >= 3 && !contains_text(row[2]@, trading_starts_mark()) {
        date_of(parsed_date(row[0]@))
    } else {
        None
    }
}

/// The holidays that the rows name, in the order of the rows.
pub open spec fn holidays_of(rows: Seq<Vec<String>>) -> Seq<Date>
    decreases rows.len(),
{
    if rows.len() == 0 {
        Seq::empty()
    } else {
        let earlier = holidays_of(rows.drop_last());
        match row_holiday(rows.last()@) {
            Some(date) => earlier.push(date),
            None => earlier,
        }
    }
}

/// Judges the status of a response.
pub fn check_stat(stat: &Option<String>) -> (check: StatCheck)
    ensures
        check == stat_check(
            match stat {
                Some(text) => Some(text@),
                None => None,
            },
        ),
{
    match stat {
        None => StatCheck::Malformed,
        Some(text) => if is_ok(text.as_str()) {
            StatCheck::Accepted
        } else {
            StatCheck::BadStatus
        },
    }
}

impl StatCheck {
    /// What to tell the operator about a response that was turned down.
    pub fn complaint(&self) -> (message: Option<&'static str>)
        ensures
            message is None <==> *self == StatCheck::Accepted,
            *self == StatCheck::Malformed ==> message->0@ == "HolidaySchedule.res.Stat is None"@,
            *self == StatCheck::BadStatus ==> message->0@ == "HolidaySchedule.res.Stat is not ok"@,
    {
        match self {
            StatCheck::Accepted => None,
            StatCheck::Malformed => Some("HolidaySchedule.res.Stat is None"),
            StatCheck::BadStatus => Some("HolidaySchedule.res.Stat is not ok"),
        }
    }
}

/// The holiday a row of the schedule names, if it names one.
pub fn holiday_in_row(row: &Vec<String>) -> (holiday: Option<Date>)
    ensures
        holiday == row_holiday(row@),
{
    if row.len() >= 3 && !contains(row[2].as_str(), "開始交易") {
        Date::parse(row[0].as_str())
    } else {
        None
    }
}

/// The address of the holiday schedule of a year.  `time` only serves to
/// get past caches.
pub open spec fn schedule_address(host: Seq<char>, year: i32, time: i64) -> Seq<char> {
    "https://www."@ + host + "/rwd/zh/holidaySchedule/holidaySchedule?date="@ + decimal_text(
        year as int,
    ) + "&response=json&_="@ + decimal_text(time as int)
}

/// Writes the address of the holiday schedule of a year.
pub fn schedule_url(host: &str, year: i32, time: i64) -> (url: String)
    ensures
        url@ == schedule_address(host@, year, time),
{
    let mut url = String::from_str("https://www.");
    let year_text = render_i64(year as i64);
    let time_text = render_i64(time);
    url.append(host);
    url.append("/rwd/zh/holidaySchedule/holidaySchedule?date=");
    url.append(year_text.as_str());
    url.append("&response=json&_=");
    url.append(time_text.as_str());
    url
}

/// Reads the holidays out of a response: none unless the status is `OK`,
/// else the date of every row that names a holiday.
pub fn visit(stat: &Option<String>, data: &Vec<Vec<String>>) -> (result: (StatCheck, Vec<Date>))
    ensures
        result.0 == stat_check(
            match stat {
                Some(text) => Some(text@),
                None => None,
            },
        ),
        result.1@ == if result.0 == StatCheck::Accepted {
            holidays_of(data@)
        } else {
            Seq::empty()
        },
{
    let check = check_stat(stat);
    let mut holidays: Vec<Date> = Vec::new();
    match check {
        StatCheck::Accepted => {},
        _ => {
            return (check, holidays);
        },
    }
    let mut i: usize = 0;
    assert(data@.take(0) =~= Seq::empty());
    while i < data.len()
        invariant
            i <= data@.len(),
            holidays@ == holidays_of(data@.take(i as int)),
        decreases data@.len() - i,
    {
        proof {
            let upto = data@.take(i as int + 1);
            assert(upto.drop_last() =~= data@.take(i as int));
            assert(upto.last() == data@[i as int]);
        }
        match holiday_in_row(&data[i]) {
            Some(date) => {
                holidays.push(date);
            },
            None => {},
        }
        i = i + 1;
    }
    assert(data@.take(data@.len() as int) =~= data@);
    (check, holidays)
}

} // verus!
