use stock_crawler::amount::Amount;
use stock_crawler::calendar::Quarter;
use stock_crawler::financial_statement::{
    fetch_annual, vec_to_hashmap, FinancialStatement, StatementTable, WriteError,
};
use stock_crawler::source::{Eps, Profile, Profit};

fn amount(mantissa: i128) -> Amount {
    Amount { mantissa, scale: 2 }
}

fn statement(code: &str, year: i64, quarter: &str, eps: i128, now: i64) -> FinancialStatement {
    let mut e = FinancialStatement::new(code.to_string());
    e.year = year;
    e.quarter = quarter.to_string();
    e.earnings_per_share = amount(eps);
    e.gross_profit = amount(eps * 2);
    e.created_time = now;
    e.updated_time = now;
    e
}

fn profile(code: &str, year: i32, quarter: &str) -> Profile {
    Profile {
        security_code: code.to_string(),
        year,
        quarter: quarter.to_string(),
        gross_profit: amount(1),
        operating_profit_margin: amount(2),
        pre_tax_income: amount(3),
        net_income: amount(4),
        net_asset_value_per_share: amount(5),
        sales_per_share: amount(6),
        earnings_per_share: amount(7),
        profit_before_tax: amount(8),
        return_on_equity: amount(9),
        return_on_assets: amount(10),
    }
}

#[test]
fn a_new_statement_is_blank() {
    let e = FinancialStatement::new("2330".to_string());
    assert_eq!(e.security_code, "2330");
    assert_eq!(e.quarter, "");
    assert_eq!(e.year, 0);
    assert_eq!(e.serial, 0);
    assert_eq!(e.created_time, 0);
    assert_eq!(e.updated_time, 0);
    for figure in [
        e.gross_profit,
        e.operating_profit_margin,
        e.pre_tax_income,
        e.net_income,
        e.net_asset_value_per_share,
        e.sales_per_share,
        e.earnings_per_share,
        e.profit_before_tax,
        e.return_on_equity,
        e.return_on_assets,
    ] {
        assert_eq!(figure, Amount { mantissa: 0, scale: 0 });
    }
}

#[test]
fn the_key_joins_code_year_and_quarter() {
    let e = statement("2330", 2023, "Q4", 1, 0);
    assert_eq!(e.key(), "2330-2023-Q4");
    assert_eq!(e.key_with_prefix(), "FinancialStatement:2330-2023-Q4");
    let annual = statement("1101", -5, "", 1, 0);
    assert_eq!(annual.key(), "1101--5-");
}

#[test]
fn a_profile_becomes_a_statement() {
    let e = FinancialStatement::from_profile(profile("2330", 2023, "Q4"), 77);
    assert_eq!(e.security_code, "2330");
    assert_eq!(e.year, 2023);
    assert_eq!(e.quarter, "Q4");
    assert_eq!(e.created_time, 77);
    assert_eq!(e.updated_time, 77);
    assert_eq!(e.serial, 0);
    assert_eq!(e.gross_profit, amount(1));
    assert_eq!(e.operating_profit_margin, amount(2));
    assert_eq!(e.pre_tax_income, amount(3));
    assert_eq!(e.net_income, amount(4));
    assert_eq!(e.net_asset_value_per_share, amount(5));
    assert_eq!(e.sales_per_share, amount(6));
    assert_eq!(e.earnings_per_share, amount(7));
    assert_eq!(e.profit_before_tax, amount(8));
    assert_eq!(e.return_on_equity, amount(9));
    assert_eq!(e.return_on_assets, amount(10));
}

#[test]
fn a_profit_record_becomes_a_statement() {
    let record = Profit {
        security_code: "1101".to_string(),
        year: 2022,
        quarter: "Q1".to_string(),
        gross_profit: amount(11),
        operating_profit_margin: amount(12),
        pre_tax_income: amount(13),
        net_income: amount(14),
        net_asset_value_per_share: amount(15),
        sales_per_share: amount(16),
        earnings_per_share: amount(17),
        profit_before_tax: amount(18),
        return_on_equity: amount(19),
        return_on_assets: amount(20),
    };
    let e = FinancialStatement::from_profit(record, 5);
    assert_eq!(e.key(), "1101-2022-Q1");
    assert_eq!(e.gross_profit, amount(11));
    assert_eq!(e.return_on_assets, amount(20));
    assert_eq!(e.updated_time, 5);
}

#[test]
fn earnings_alone_become_a_statement() {
    let record = Eps {
        stock_symbol: "2317".to_string(),
        year: 2021,
        quarter: Quarter::Q2,
        earnings_per_share: amount(321),
    };
    let e = FinancialStatement::from_eps(record, 9);
    assert_eq!(e.key(), "2317-2021-Q2");
    assert_eq!(e.earnings_per_share, amount(321));
    assert_eq!(e.gross_profit, Amount { mantissa: 0, scale: 0 });
    assert_eq!(e.created_time, 9);
}

#[test]
fn upsert_creates_then_overwrites() {
    let mut table = StatementTable::new();
    assert_eq!(statement("2330", 2023, "Q4", 100, 10).upsert(&mut table), Ok(1));
    assert_eq!(table.len(), 1);

    let mut second = statement("2330", 2023, "Q4", 250, 20);
    second.serial = 99;
    assert_eq!(second.upsert(&mut table), Ok(1));
    assert_eq!(table.len(), 1);

    let stored = table.get(&statement("2330", 2023, "Q4", 0, 0)).unwrap();
    assert_eq!(stored.earnings_per_share, amount(250));
    assert_eq!(stored.gross_profit, amount(500));
    assert_eq!(stored.updated_time, 20);
    assert_eq!(stored.created_time, 10);
    assert_eq!(stored.serial, 0);
}

#[test]
fn upsert_is_idempotent() {
    let mut once = StatementTable::new();
    statement("2330", 2023, "Q4", 100, 10).upsert(&mut once).unwrap();
    let mut twice = StatementTable::new();
    statement("2330", 2023, "Q4", 100, 10).upsert(&mut twice).unwrap();
    statement("2330", 2023, "Q4", 100, 10).upsert(&mut twice).unwrap();
    assert_eq!(once.len(), twice.len());
    let probe = statement("2330", 2023, "Q4", 0, 0);
    let a = once.get(&probe).unwrap();
    let b = twice.get(&probe).unwrap();
    assert_eq!(a.earnings_per_share, b.earnings_per_share);
    assert_eq!(a.created_time, b.created_time);
    assert_eq!(a.updated_time, b.updated_time);
    assert_eq!(a.serial, b.serial);
}

#[test]
fn upserts_under_different_keys_come_in_any_order() {
    let mut forth = StatementTable::new();
    statement("2330", 2023, "Q4", 1, 10).upsert(&mut forth).unwrap();
    statement("2317", 2023, "Q4", 2, 11).upsert(&mut forth).unwrap();
    let mut back = StatementTable::new();
    statement("2317", 2023, "Q4", 2, 11).upsert(&mut back).unwrap();
    statement("2330", 2023, "Q4", 1, 10).upsert(&mut back).unwrap();
    for table in [&forth, &back] {
        assert_eq!(table.len(), 2);
        assert_eq!(
            table.get(&statement("2330", 2023, "Q4", 0, 0)).unwrap().earnings_per_share,
            amount(1)
        );
        assert_eq!(
            table.get(&statement("2317", 2023, "Q4", 0, 0)).unwrap().earnings_per_share,
            amount(2)
        );
    }
}

#[test]
fn the_key_is_code_year_and_quarter_together() {
    let mut table = StatementTable::new();
    statement("2330", 2023, "Q4", 1, 0).upsert(&mut table).unwrap();
    statement("2330", 2023, "Q3", 2, 0).upsert(&mut table).unwrap();
    statement("2330", 2022, "Q4", 3, 0).upsert(&mut table).unwrap();
    statement("2317", 2023, "Q4", 4, 0).upsert(&mut table).unwrap();
    assert_eq!(table.len(), 4);
    assert!(table.contains("2330", 2023, "Q3"));
    assert!(!table.contains("2330", 2023, "Q2"));
    assert!(table.get(&statement("2317", 2022, "Q4", 0, 0)).is_none());
}

#[test]
fn a_figure_that_does_not_fit_is_refused() {
    let mut table = StatementTable::new();
    let mut e = statement("2330", 2023, "Q4", 1, 0);
    e.return_on_equity = Amount { mantissa: i128::MAX, scale: 0 };
    assert_eq!(e.upsert(&mut table), Err(WriteError::FigureOutOfRange));
    assert_eq!(table.len(), 0);

    let mut e = statement("2330", 2023, "Q4", 1, 0);
    e.net_income = Amount { mantissa: 1, scale: 29 };
    assert!(!e.is_storable());
    assert_eq!(e.upsert(&mut table), Err(WriteError::FigureOutOfRange));
    assert_eq!(table.len(), 0);
}

#[test]
fn earnings_are_inserted_but_never_overwrite() {
    let mut table = StatementTable::new();
    let first = statement("2330", 2023, "Q4", 100, 10);
    assert_eq!(first.upsert_earnings_per_share(&mut table), Ok(1));
    let stored = table.get(&first).unwrap();
    assert_eq!(stored.earnings_per_share, amount(100));
    assert_eq!(stored.gross_profit, Amount { mantissa: 0, scale: 0 });
    assert_eq!(stored.created_time, 10);
    assert_eq!(stored.updated_time, 10);

    let later = statement("2330", 2023, "Q4", 999, 20);
    assert_eq!(later.upsert_earnings_per_share(&mut table), Ok(0));
    let stored = table.get(&first).unwrap();
    assert_eq!(stored.earnings_per_share, amount(100));
    assert_eq!(stored.updated_time, 10);

    let mut bad = statement("1101", 2023, "Q4", 1, 0);
    bad.earnings_per_share = Amount { mantissa: i128::MIN, scale: 0 };
    assert_eq!(bad.upsert_earnings_per_share(&mut table), Err(WriteError::FigureOutOfRange));
    assert_eq!(table.len(), 1);
}

#[test]
fn annual_statements_of_a_year_are_fetched() {
    let mut table = StatementTable::new();
    statement("2330", 2022, "", 1, 0).upsert(&mut table).unwrap();
    statement("2330", 2022, "Q4", 2, 0).upsert(&mut table).unwrap();
    statement("2317", 2022, "", 3, 0).upsert(&mut table).unwrap();
    statement("2317", 2021, "", 4, 0).upsert(&mut table).unwrap();
    let mut codes: Vec<String> =
        fetch_annual(&table, 2022).into_iter().map(|e| e.security_code).collect();
    codes.sort();
    assert_eq!(codes, vec!["2317".to_string(), "2330".to_string()]);
    assert!(fetch_annual(&table, 2020).is_empty());
}

#[test]
fn statements_are_indexed_by_code_and_the_later_stays() {
    let map = vec_to_hashmap(vec![
        statement("2330", 2021, "", 1, 0),
        statement("2317", 2021, "", 2, 0),
        statement("2330", 2022, "", 3, 0),
    ]);
    assert_eq!(map.len(), 2);
    let kept = map.get("2330").unwrap();
    assert_eq!(kept.year, 2022);
    assert_eq!(kept.earnings_per_share, amount(3));
    assert_eq!(map.get("2317").unwrap().earnings_per_share, amount(2));
    assert!(map.get("1101").is_none());
    assert_eq!(vec_to_hashmap(Vec::new()).len(), 0);
}

#[test]
fn a_copy_is_equal_in_every_field() {
    let e = statement("2330", 2023, "Q4", 5, 6);
    let copy = e.duplicate();
    assert!(e.same_key(&copy));
    assert_eq!(copy.key(), e.key());
    assert_eq!(copy.earnings_per_share, e.earnings_per_share);
    assert_eq!(copy.created_time, e.created_time);
    assert!(!e.same_key(&statement("2330", 2023, "Q3", 5, 6)));
}
