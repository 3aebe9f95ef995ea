//! The estimate of what a share is worth, recomputed for one day from the
//! closing prices and the dividends of the last ten years.

use vstd::prelude::*;
use crate::calendar::{formatted_date, Date};
use crate::text::{decimal_text, render_i64};

verus! {

/// How many years back the estimate looks, the year of the date included.
pub const YEARS_BACK: i32 = 10;

/// The statement up to the years of the price bands.
pub const INSERT_HEAD: &'static str = r#"
WITH stocks AS (
  SELECT stock_symbol
  FROM stocks AS c
  WHERE c."SuspendListing" = false
  AND c.stock_industry_id IN (
    SELECT stock_industry.stock_industry_id
    FROM stock_industry
  )
),
price as (
	SELECT
        s.stock_symbol AS "SecurityCode",
        COUNT(DISTINCT dq."year") AS year_count,
        MIN(dq."ClosingPrice") AS price_cheap,
        AVG(dq."ClosingPrice") AS price_fair,
        MAX(dq."ClosingPrice") AS price_expensive
    FROM
        stocks s
    INNER JOIN
        "DailyQuotes" dq ON s.stock_symbol = dq."SecurityCode"
    WHERE
        dq."year" in ("#;

/// The statement between the years of the price bands and those of the
/// dividend bands.
pub const INSERT_AFTER_PRICE_YEARS: &'static str = r#")
        AND dq."ClosingPrice" > 0
    GROUP BY
        s.stock_symbol
),
dividend as (
	select security_code,
		avg("sum") * 15 as dividend_cheap,
		avg("sum") * 20 as dividend_fair,
		avg("sum") * 30 as dividend_expensive
	from dividend
	where "year" in ("#;

/// The statement between the years of the dividend bands and the date.
pub const INSERT_AFTER_DIVIDEND_YEARS: &'static str = r#")
	group by security_code
)
insert into estimate (
	security_code, "date", percentage, closing_price, cheap, fair, expensive, price_cheap,
	price_fair, price_expensive, dividend_cheap, dividend_fair, dividend_expensive, year_count
)
select dq."SecurityCode",
	dq."Date",
	(((dq."ClosingPrice" / ((price_cheap + dividend_cheap) / 2))) * 100) as percentage,
	dq."ClosingPrice",
	(price_cheap + dividend_cheap) / 2                                   as cheap,
	(price_fair + dividend_fair) / 2                                     as fair,
	(price_expensive + dividend_expensive) / 2                           as expensive,
	price_cheap,
	price_fair,
	price_expensive,
	dividend_cheap,
	dividend_fair,
	dividend_expensive,
	year_count
from stocks AS c
inner join "DailyQuotes" as dq on "c".stock_symbol = dq."SecurityCode" and dq."Date" = '"#;

/// The end of the statement.
pub const INSERT_TAIL: &'static str = r#"'
inner join price on dq."SecurityCode" = price."SecurityCode"
inner join dividend on dq."SecurityCode" = dividend.security_code
ON CONFLICT (date,security_code) DO NOTHING;
"#;

/// The years the estimate looks at: the given one and the nine before it,
/// latest first.
pub open spec fn years_before(year: i32) -> Seq<i32> {
    Seq::new(YEARS_BACK as nat, |i: int| (year - i) as i32)
}

/// The numbers in decimal, separated by commas.
pub open spec fn comma_separated(numbers: Seq<i32>) -> Seq<char>
    decreases numbers.len(),
{
    if numbers.len() == 0 {
        Seq::empty()
    } else if numbers.len() == 1 {
        decimal_text(numbers[0] as int)
    } else {
        comma_separated(numbers.drop_last()) + seq![','] + decimal_text(numbers.last() as int)
    }
}

/// The statement that writes the estimates of one day, given the text of
/// the date and the list of years.
pub open spec fn insert_statement(date: Seq<char>, years: Seq<char>) -> Seq<char> {
    INSERT_HEAD@ + years + INSERT_AFTER_PRICE_YEARS@ + years + INSERT_AFTER_DIVIDEND_YEARS@ + date
        + INSERT_TAIL@
}

/// The years the estimate looks at: the given one and the nine before it,
/// latest first.
pub fn recent_years(year: i32) -> (years: Vec<i32>)
    requires
        year - (YEARS_BACK - 1) >= i32::MIN,
    ensures
        years@ == years_before(year),
{
    let mut years: Vec<i32> = Vec::new();
    let mut i: i32 = 0;
    while i < YEARS_BACK
        invariant
            0 <= i <= YEARS_BACK,
            year - (YEARS_BACK - 1) >= i32::MIN,
            years@.len() == i,
            forall|j: int| 0 <= j < i ==> years@[j] == year - j,
        decreases YEARS_BACK - i,
    {
        years.push(year - i);
        i = i + 1;
    }
    assert(years@ =~= years_before(year));
    years
}

/// Writes the numbers in decimal, separated by commas.
pub fn join_years(numbers: &Vec<i32>) -> (text: String)
    ensures
        text@ == comma_separated(numbers@),
{
    let mut text = String::new();
    let mut i: usize = 0;
    assert(numbers@.take(0) =~= Seq::empty());
    while i < numbers.len()
        invariant
            i <= numbers@.len(),
            text@ == comma_separated(numbers@.take(i as int)),
        decreases numbers@.len() - i,
    {
        proof {
            let upto = numbers@.take(i as int + 1);
            assert(upto.drop_last() =~= numbers@.take(i as int));
            assert(upto.last() == numbers@[i as int]);
            if i == 0 {
                assert(upto[0] == numbers@[0]);
            }
            reveal_strlit(",");
            assert(","@ =~= seq![',']);
        }
        if i > 0 {
            text.append(",");
        }
        let number = render_i64(numbers[i] as i64);
        text.append(number.as_str());
        proof {
            if i == 0 {
                assert(text@ =~= decimal_text(numbers@[0] as int));
            }
        }
        i = i + 1;
    }
    assert(numbers@.take(numbers@.len() as int) =~= numbers@);
    text
}

/// Writes the statement from the text of the date and the list of years.
pub fn compose_insert(date: &str, years: &str) -> (statement: String)
    ensures
        statement@ == insert_statement(date@, years@),
{
    let mut statement = String::from_str(INSERT_HEAD);
    statement.append(years);
    statement.append(INSERT_AFTER_PRICE_YEARS);
    statement.append(years);
    statement.append(INSERT_AFTER_DIVIDEND_YEARS);
    statement.append(date);
    statement.append(INSERT_TAIL);
    statement
}

/// The statement that writes the estimates of the day: `None` where the
/// numbers are no date, or the year is so early that the years before it
/// cannot be counted.
pub fn insert(date: Date) -> (statement: Option<String>)
    ensures
        statement is Some <==> date.year - (YEARS_BACK - 1) >= i32::MIN && formatted_date(
            date.year as int,
            date.month as int,
            date.day as int,
        ) is Some,
        statement matches Some(text) ==> text@ == insert_statement(
            formatted_date(date.year as int, date.month as int, date.day as int)->0,
            comma_separated(years_before(date.year)),
        ),
{
    if date.year < i32::MIN + (YEARS_BACK - 1) {
        return None;
    }
    match date.format() {
        Some(day) => {
            let years = recent_years(date.year);
            let list = join_years(&years);
            Some(compose_insert(day.as_str(), list.as_str()))
        },
        None => None,
    }
}

} // verus!
