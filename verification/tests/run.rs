use stock_crawler::amount::Amount;
use stock_crawler::backfill::{ItemError, Outcome, TaskError};
use stock_crawler::calendar::{Date, Quarter, ReportingWindow};
use stock_crawler::database::Database;
use stock_crawler::financial_statement::FinancialStatement;
use stock_crawler::run::{execute, execute_window};
use stock_crawler::sentinel::{SentinelCache, SentinelMark};
use stock_crawler::source::{Profile, ProfileSource};
use stock_crawler::stock::Stock;

const KEY: &str = "financial_statement::yahoo";

fn amount(mantissa: i128) -> Amount {
    Amount { mantissa, scale: 2 }
}

fn profile(code: &str, year: i32, quarter: &str, eps: i128) -> Profile {
    Profile {
        security_code: code.to_string(),
        year,
        quarter: quarter.to_string(),
        gross_profit: amount(1),
        operating_profit_margin: amount(2),
        pre_tax_income: amount(3),
        net_income: amount(4),
        net_asset_value_per_share: amount(5),
        sales_per_share: amount(6),
        earnings_per_share: amount(eps),
        profit_before_tax: amount(8),
        return_on_equity: amount(9),
        return_on_assets: amount(10),
    }
}

fn probe(code: &str, year: i64, quarter: &str) -> FinancialStatement {
    let mut e = FinancialStatement::new(code.to_string());
    e.year = year;
    e.quarter = quarter.to_string();
    e
}

fn listed(symbols: &[&str]) -> Database {
    let mut database = Database::new();
    for symbol in symbols {
        database.add_stock(Stock::new(symbol.to_string(), false));
    }
    database
}

fn q4() -> Option<ReportingWindow> {
    Some(ReportingWindow { year: 2023, quarter: Quarter::Q4 })
}

fn snapshot(database: &Database) -> Vec<(String, i64, String, Amount, i64, i64)> {
    let mut rows = Vec::new();
    for stock in &database.stocks {
        for year in 2020..2026i64 {
            for quarter in ["", "Q1", "Q2", "Q3", "Q4"] {
                if let Some(row) = database.statements.get(&probe(&stock.stock_symbol, year, quarter))
                {
                    rows.push((
                        row.security_code,
                        row.year,
                        row.quarter,
                        row.earnings_per_share,
                        row.created_time,
                        row.updated_time,
                    ));
                }
            }
        }
    }
    rows
}

#[test]
fn mismatched_item_is_skipped_and_the_others_are_written() {
    // "Now" is 2024-04-10; 125 days before lies 2023-12-07, in Q4 of 2023.
    let today = Date { year: 2024, month: 4, day: 10 };
    let mut cache = SentinelCache::new();
    let mut database = listed(&["A", "B", "C"]);
    let mut source = ProfileSource::new();
    source.answer("A", profile("A", 2023, "Q4", 11));
    source.answer("B", profile("B", 2023, "Q3", 22));
    source.answer("C", profile("C", 2023, "Q4", 33));

    let report = execute(&mut cache, &mut database, &source, today, 5_000).unwrap();

    assert_eq!(report.outcomes.len(), 3);
    assert!(matches!(&report.outcomes[0], Outcome::Success(s) if s.security_code == "A"));
    assert!(matches!(report.outcomes[1], Outcome::Failed(ItemError::ValidationMismatch)));
    assert!(matches!(&report.outcomes[2], Outcome::Success(s) if s.security_code == "C"));
    assert_eq!(report.upserts(), 2);
    assert_eq!(report.source_calls(), 3);
    assert!(report.sentinel_set);
    assert!(report.derived_refreshed);

    assert_eq!(database.statements.len(), 2);
    assert_eq!(
        database.statements.get(&probe("A", 2023, "Q4")).unwrap().earnings_per_share,
        amount(11)
    );
    assert_eq!(
        database.statements.get(&probe("C", 2023, "Q4")).unwrap().earnings_per_share,
        amount(33)
    );
    assert!(!database.statements.contains("B", 2023, "Q3"));
    assert!(!database.statements.contains("B", 2023, "Q4"));
    assert!(!database.derived_stale);

    assert_eq!(
        cache.peek(KEY),
        Some(SentinelMark { value: true, expires_at: 5_000 + 604_800_000 })
    );
    assert!(cache.get_bool(KEY, 5_001));
}

#[test]
fn with_nothing_missing_the_sentinel_is_still_set() {
    let mut cache = SentinelCache::new();
    let mut database = Database::new();
    let source = ProfileSource::new();
    let report = execute_window(&mut cache, &mut database, &source, q4(), 10).unwrap();
    assert!(!report.skipped);
    assert!(report.outcomes.is_empty());
    assert_eq!(report.upserts(), 0);
    assert!(report.sentinel_set);
    assert!(!report.derived_refreshed);
    assert_eq!(database.statements.len(), 0);
    assert!(cache.get_bool(KEY, 11));
}

#[test]
fn a_present_sentinel_means_no_reads_and_no_calls() {
    let mut cache = SentinelCache::new();
    cache.set(KEY, true, 60, 0);
    let mut database = listed(&["A"]);
    let mut source = ProfileSource::new();
    source.answer("A", profile("A", 2023, "Q4", 1));

    let report = execute_window(&mut cache, &mut database, &source, q4(), 59_999).unwrap();
    assert!(report.skipped);
    assert_eq!(report.persistence_reads(), 0);
    assert_eq!(report.source_calls(), 0);
    assert_eq!(report.upserts(), 0);
    assert_eq!(database.statements.len(), 0);
    assert_eq!(cache.peek(KEY), Some(SentinelMark { value: true, expires_at: 60_000 }));

    // Once the sentinel has expired, the run does its work.
    let report = execute_window(&mut cache, &mut database, &source, q4(), 60_000).unwrap();
    assert!(!report.skipped);
    assert_eq!(report.upserts(), 1);
}

#[test]
fn running_twice_is_running_once() {
    let mut source = ProfileSource::new();
    source.answer("A", profile("A", 2023, "Q4", 11));
    source.answer("B", profile("B", 2022, "Q4", 22));
    source.answer("D", profile("D", 2023, "Q4", 44));

    let mut cache = SentinelCache::new();
    let mut database = listed(&["A", "B", "C", "D"]);
    execute_window(&mut cache, &mut database, &source, q4(), 1_000).unwrap();
    let once = snapshot(&database);
    let once_stocks: Vec<Amount> =
        database.stocks.iter().map(|s| s.net_asset_value_per_share).collect();
    assert_eq!(once.len(), 2);
    assert_eq!(once[0].4, 1_000);

    cache.clear();
    let report = execute_window(&mut cache, &mut database, &source, q4(), 9_000).unwrap();
    assert!(!report.skipped);
    assert_eq!(report.upserts(), 0);
    assert_eq!(report.outcomes.len(), 2);
    assert_eq!(snapshot(&database), once);
    let twice_stocks: Vec<Amount> =
        database.stocks.iter().map(|s| s.net_asset_value_per_share).collect();
    assert_eq!(twice_stocks, once_stocks);
    assert!(!database.derived_stale);
}

#[test]
fn one_refused_write_does_not_stop_the_others() {
    let mut source = ProfileSource::new();
    source.answer("A", profile("A", 2023, "Q4", 11));
    let mut broken = profile("B", 2023, "Q4", 22);
    broken.return_on_assets = Amount { mantissa: i128::MAX, scale: 0 };
    source.answer("B", broken);
    source.answer("C", profile("C", 2023, "Q4", 33));

    let mut cache = SentinelCache::new();
    let mut database = listed(&["A", "B", "C"]);
    let report = execute_window(&mut cache, &mut database, &source, q4(), 1).unwrap();

    assert!(report.outcomes[0].is_success());
    assert!(matches!(report.outcomes[1], Outcome::Failed(ItemError::PersistenceWrite)));
    assert!(report.outcomes[2].is_success());
    assert!(database.statements.contains("A", 2023, "Q4"));
    assert!(!database.statements.contains("B", 2023, "Q4"));
    assert!(database.statements.contains("C", 2023, "Q4"));
    assert!(report.sentinel_set);
}

#[test]
fn a_provider_without_an_answer_fails_the_item_only() {
    let mut source = ProfileSource::new();
    source.answer("B", profile("B", 2023, "Q4", 22));
    let mut cache = SentinelCache::new();
    let mut database = listed(&["A", "B"]);
    let report = execute_window(&mut cache, &mut database, &source, q4(), 1).unwrap();
    assert!(matches!(report.outcomes[0], Outcome::Failed(ItemError::TransientFetch)));
    assert!(report.outcomes[1].is_success());
    assert_eq!(database.statements.len(), 1);
}

#[test]
fn the_net_asset_value_is_filled_in_where_it_was_missing() {
    let mut source = ProfileSource::new();
    source.answer("A", profile("A", 2023, "Q4", 11));
    source.answer("B", profile("B", 2023, "Q4", 22));
    let mut cache = SentinelCache::new();
    let mut database = Database::new();
    database.add_stock(Stock::new("A".to_string(), false));
    let mut known = Stock::new("B".to_string(), false);
    known.net_asset_value_per_share = amount(777);
    database.add_stock(known);
    execute_window(&mut cache, &mut database, &source, q4(), 1).unwrap();
    assert_eq!(database.stocks[0].net_asset_value_per_share, amount(5));
    assert_eq!(database.stocks[1].net_asset_value_per_share, amount(777));
}

#[test]
fn a_day_that_is_no_date_fails_the_run_and_sets_no_sentinel() {
    let mut cache = SentinelCache::new();
    let mut database = listed(&["A"]);
    let source = ProfileSource::new();
    let result = execute(
        &mut cache,
        &mut database,
        &source,
        Date { year: 2024, month: 2, day: 31 },
        1,
    );
    assert!(matches!(result, Err(TaskError::WindowUnavailable)));
    assert_eq!(cache.peek(KEY), None);
}

#[test]
fn the_provider_answers_as_it_was_told() {
    let mut source = ProfileSource::new();
    assert!(source.fetch("A").is_none());
    source.answer("A", profile("A", 2023, "Q4", 1));
    source.answer("A", profile("A", 2023, "Q4", 2));
    assert_eq!(source.fetch("A").unwrap().earnings_per_share, amount(2));
    assert!(source.fetch("B").is_none());
}

#[test]
fn a_record_filed_under_another_security_is_fetched_again() {
    // The provider is asked about A and answers with the record of Z: the
    // statement is filed under Z, and A is found missing once more.
    let mut source = ProfileSource::new();
    source.answer("A", profile("Z", 2023, "Q4", 11));
    let mut cache = SentinelCache::new();
    let mut database = listed(&["A", "Z"]);
    let report = execute_window(&mut cache, &mut database, &source, q4(), 1_000).unwrap();
    assert_eq!(report.upserts(), 1);
    assert!(database.statements.contains("Z", 2023, "Q4"));
    assert!(!database.statements.contains("A", 2023, "Q4"));
    assert_eq!(database.statements.get(&probe("Z", 2023, "Q4")).unwrap().updated_time, 1_000);

    cache.clear();
    let report = execute_window(&mut cache, &mut database, &source, q4(), 2_000).unwrap();
    assert_eq!(report.upserts(), 1);
    let row = database.statements.get(&probe("Z", 2023, "Q4")).unwrap();
    assert_eq!(row.created_time, 1_000);
    assert_eq!(row.updated_time, 2_000);
    assert_eq!(database.statements.len(), 1);
}
