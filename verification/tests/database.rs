use stock_crawler::amount::Amount;
use stock_crawler::calendar::{Quarter, ReportingWindow};
use stock_crawler::database::Database;
use stock_crawler::financial_statement::{FinancialStatement, WriteError};
use stock_crawler::stock::{Stock, SymbolAndName};

fn window() -> ReportingWindow {
    ReportingWindow { year: 2023, quarter: Quarter::Q4 }
}

fn filed(code: &str, year: i64, quarter: &str) -> FinancialStatement {
    let mut e = FinancialStatement::new(code.to_string());
    e.year = year;
    e.quarter = quarter.to_string();
    e
}

#[test]
fn securities_without_a_statement_are_missing() {
    let mut database = Database::new();
    database.add_stock(Stock::new("2330".to_string(), false));
    database.add_stock(Stock::new("2317".to_string(), false));
    database.add_stock(Stock::new("2881A".to_string(), true));
    database.upsert_statement(filed("2317", 2023, "Q4")).unwrap();
    database.upsert_statement(filed("2330", 2023, "Q3")).unwrap();
    let missing: Vec<String> =
        database.find_missing(window()).into_iter().map(|s| s.stock_symbol).collect();
    assert_eq!(missing, vec!["2330".to_string(), "2881A".to_string()]);
}

#[test]
fn nothing_is_missing_in_an_empty_store() {
    assert!(Database::new().find_missing(window()).is_empty());
}

#[test]
fn a_write_marks_the_derived_figures_stale() {
    let mut database = Database::new();
    assert!(!database.derived_stale);
    assert_eq!(database.upsert_statement(filed("2330", 2023, "Q4")), Ok(1));
    assert!(database.derived_stale);
    database.refresh_derived();
    assert!(!database.derived_stale);

    let mut bad = filed("2330", 2023, "Q3");
    bad.net_income = Amount { mantissa: i128::MAX, scale: 0 };
    assert_eq!(database.upsert_statement(bad), Err(WriteError::FigureOutOfRange));
    assert!(!database.derived_stale);
    assert_eq!(database.statements.len(), 1);
}

#[test]
fn the_net_asset_value_is_set_for_the_symbol_only() {
    let mut database = Database::new();
    database.add_stock(Stock::new("2330".to_string(), false));
    database.add_stock(Stock::new("2317".to_string(), false));
    let value = Amount { mantissa: 1234, scale: 2 };
    assert_eq!(database.update_net_asset_value("2330", value), Ok(1));
    assert_eq!(database.stocks[0].net_asset_value_per_share, value);
    assert_eq!(database.stocks[1].net_asset_value_per_share, Amount::zero());
    assert_eq!(database.update_net_asset_value("9999", value), Ok(0));
    assert_eq!(
        database.update_net_asset_value("2317", Amount { mantissa: 1, scale: 40 }),
        Err(WriteError::FigureOutOfRange)
    );
    assert_eq!(database.stocks[1].net_asset_value_per_share, Amount::zero());
}

#[test]
fn a_security_knows_whether_it_is_a_preference_share() {
    assert!(Stock::new("2881A".to_string(), true).is_preference_shares());
    let stock = Stock::new("2881".to_string(), false);
    assert!(!stock.is_preference_shares());
    assert_eq!(stock.duplicate().stock_symbol, "2881");
    let pair = SymbolAndName::new("2330".to_string(), "TSMC".to_string());
    assert_eq!(pair.stock_symbol, "2330");
    assert_eq!(pair.name, "TSMC");
}
