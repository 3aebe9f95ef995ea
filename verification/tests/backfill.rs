use stock_crawler::amount::Amount;
use stock_crawler::backfill::{
    record_matches_window, sentinel_key, Action, BackfillTask, Event, Ineligible, ItemError,
    Outcome, Phase, TaskError, SENTINEL_TTL_SECONDS,
};
use stock_crawler::calendar::{Quarter, ReportingWindow};
use stock_crawler::source::Profile;
use stock_crawler::stock::Stock;

fn window() -> ReportingWindow {
    ReportingWindow { year: 2023, quarter: Quarter::Q4 }
}

fn amount(mantissa: i128) -> Amount {
    Amount { mantissa, scale: 2 }
}

fn profile(code: &str, year: i32, quarter: &str, nav: i128) -> Profile {
    Profile {
        security_code: code.to_string(),
        year,
        quarter: quarter.to_string(),
        gross_profit: amount(1),
        operating_profit_margin: amount(2),
        pre_tax_income: amount(3),
        net_income: amount(4),
        net_asset_value_per_share: amount(nav),
        sales_per_share: amount(6),
        earnings_per_share: amount(7),
        profit_before_tax: amount(8),
        return_on_equity: amount(9),
        return_on_assets: amount(10),
    }
}

fn stock(symbol: &str) -> Stock {
    Stock::new(symbol.to_string(), false)
}

fn started(items: Vec<Stock>) -> (BackfillTask, Action) {
    let mut task = BackfillTask::new(Some(window()), 1_000);
    assert!(matches!(task.pending_action(), Action::CheckSentinel));
    assert!(matches!(
        task.step(Event::SentinelRead(Some(false))),
        Action::FindMissing(w) if w == window()
    ));
    let action = task.step(Event::WorkSet(Some(items)));
    (task, action)
}

#[test]
fn the_sentinel_key_and_its_time_to_live() {
    assert_eq!(sentinel_key(), "financial_statement::yahoo");
    assert_eq!(SENTINEL_TTL_SECONDS, 604_800);
}

#[test]
fn a_present_sentinel_ends_the_run_at_once() {
    let mut task = BackfillTask::new(Some(window()), 0);
    match task.step(Event::SentinelRead(Some(true))) {
        Action::Finish(Ok(report)) => {
            assert!(report.skipped);
            assert!(report.outcomes.is_empty());
            assert!(!report.sentinel_set);
            assert!(!report.derived_refreshed);
            assert_eq!(report.persistence_reads(), 0);
            assert_eq!(report.source_calls(), 0);
            assert_eq!(report.upserts(), 0);
        }
        _ => panic!("the run should be over"),
    }
    assert!(task.is_finished());
}

#[test]
fn a_cache_that_fails_counts_as_no_sentinel() {
    let mut task = BackfillTask::new(Some(window()), 0);
    assert!(matches!(task.step(Event::SentinelRead(None)), Action::FindMissing(_)));
    assert_eq!(task.phase(), Phase::ReadingWorkSet);
}

#[test]
fn a_run_without_a_window_fails_after_the_sentinel_check() {
    let mut task = BackfillTask::new(None, 0);
    assert!(matches!(
        task.step(Event::SentinelRead(Some(false))),
        Action::Finish(Err(TaskError::WindowUnavailable))
    ));
    let mut skipped = BackfillTask::new(None, 0);
    assert!(matches!(skipped.step(Event::SentinelRead(Some(true))), Action::Finish(Ok(_))));
}

#[test]
fn a_failed_read_of_the_work_set_aborts_the_run() {
    let mut task = BackfillTask::new(Some(window()), 0);
    task.step(Event::SentinelRead(Some(false)));
    assert!(matches!(
        task.step(Event::WorkSet(None)),
        Action::Finish(Err(TaskError::PersistenceRead))
    ));
    assert!(matches!(
        task.pending_action(),
        Action::Finish(Err(TaskError::PersistenceRead))
    ));
}

#[test]
fn an_empty_work_set_goes_straight_to_the_sentinel() {
    let (mut task, action) = started(Vec::new());
    assert!(matches!(action, Action::StoreSentinel(604_800)));
    match task.step(Event::SentinelStored(true)) {
        Action::Finish(Ok(report)) => {
            assert!(!report.skipped);
            assert!(report.sentinel_set);
            assert!(!report.derived_refreshed);
            assert!(report.outcomes.is_empty());
            assert_eq!(report.persistence_reads(), 1);
            assert_eq!(report.upserts(), 0);
        }
        _ => panic!("the run should be over"),
    }
}

#[test]
fn one_item_is_fetched_validated_and_written() {
    let (mut task, action) = started(vec![stock("2330")]);
    assert!(matches!(action, Action::Fetch(symbol) if symbol == "2330"));
    match task.step(Event::Fetched(Some(profile("2330", 2023, "Q4", 0)))) {
        Action::Upsert(statement) => {
            assert_eq!(statement.key(), "2330-2023-Q4");
            assert_eq!(statement.created_time, 1_000);
            assert_eq!(statement.earnings_per_share, amount(7));
        }
        _ => panic!("the statement should be written"),
    }
    assert_eq!(task.phase(), Phase::Writing);
    assert!(matches!(task.step(Event::Upserted(true)), Action::RefreshDerived));
    assert!(matches!(task.step(Event::DerivedRefreshed(true)), Action::StoreSentinel(_)));
    match task.step(Event::SentinelStored(true)) {
        Action::Finish(Ok(report)) => {
            assert_eq!(report.outcomes.len(), 1);
            assert!(matches!(&report.outcomes[0], Outcome::Success(s) if s.security_code == "2330"));
            assert!(report.derived_refreshed);
            assert!(report.sentinel_set);
            assert_eq!(report.source_calls(), 1);
            assert_eq!(report.upserts(), 1);
        }
        _ => panic!("the run should be over"),
    }
}

#[test]
fn a_statement_that_brings_a_net_asset_value_updates_the_security() {
    let (mut task, _) = started(vec![stock("2330")]);
    task.step(Event::Fetched(Some(profile("2330", 2023, "Q4", 5))));
    match task.step(Event::Upserted(true)) {
        Action::UpdateNetAssetValue(symbol, value) => {
            assert_eq!(symbol, "2330");
            assert_eq!(value, amount(5));
        }
        _ => panic!("the net asset value should be set"),
    }
    // A failure of the second write does not undo the first.
    assert!(matches!(task.step(Event::NetAssetValueUpdated(false)), Action::RefreshDerived));
}

#[test]
fn a_security_with_a_net_asset_value_is_left_alone() {
    let mut known = stock("2330");
    known.net_asset_value_per_share = amount(9);
    let (mut task, _) = started(vec![known]);
    task.step(Event::Fetched(Some(profile("2330", 2023, "Q4", 5))));
    assert!(matches!(task.step(Event::Upserted(true)), Action::RefreshDerived));
}

#[test]
fn a_mismatched_record_is_skipped_and_never_written() {
    let (mut task, _) = started(vec![stock("A"), stock("B")]);
    let next = task.step(Event::Fetched(Some(profile("A", 2023, "Q3", 0))));
    assert!(matches!(next, Action::Fetch(symbol) if symbol == "B"));
    let next = task.step(Event::Fetched(Some(profile("B", 2022, "Q4", 0))));
    assert!(matches!(next, Action::StoreSentinel(_)));
    match task.step(Event::SentinelStored(true)) {
        Action::Finish(Ok(report)) => {
            assert!(matches!(report.outcomes[0], Outcome::Failed(ItemError::ValidationMismatch)));
            assert!(matches!(report.outcomes[1], Outcome::Failed(ItemError::ValidationMismatch)));
            assert!(!report.derived_refreshed);
            assert_eq!(report.upserts(), 0);
            assert_eq!(report.source_calls(), 2);
        }
        _ => panic!("the run should be over"),
    }
}

#[test]
fn failures_of_one_item_do_not_stop_the_next() {
    let mut preferred = stock("2881A");
    preferred.preference_shares = true;
    let (mut task, action) = started(vec![preferred, stock("A"), stock("B"), stock("C")]);
    // The preference share is skipped without a fetch.
    assert!(matches!(action, Action::Fetch(symbol) if symbol == "A"));
    let next = task.step(Event::Fetched(None));
    assert!(matches!(next, Action::Fetch(symbol) if symbol == "B"));
    task.step(Event::Fetched(Some(profile("B", 2023, "Q4", 0))));
    let next = task.step(Event::Upserted(false));
    assert!(matches!(next, Action::Fetch(symbol) if symbol == "C"));
    task.step(Event::Fetched(Some(profile("C", 2023, "Q4", 0))));
    assert!(matches!(task.step(Event::Upserted(true)), Action::RefreshDerived));
    task.step(Event::DerivedRefreshed(true));
    match task.step(Event::SentinelStored(true)) {
        Action::Finish(Ok(report)) => {
            assert_eq!(report.outcomes.len(), 4);
            assert!(matches!(
                report.outcomes[0],
                Outcome::SkippedIneligible(Ineligible::PreferenceShares)
            ));
            assert!(matches!(report.outcomes[1], Outcome::Failed(ItemError::TransientFetch)));
            assert!(matches!(report.outcomes[2], Outcome::Failed(ItemError::PersistenceWrite)));
            assert!(report.outcomes[3].is_success());
            assert_eq!(report.source_calls(), 3);
            assert_eq!(report.upserts(), 1);
            assert!(report.sentinel_set);
        }
        _ => panic!("the run should be over"),
    }
}

#[test]
fn a_failed_refresh_fails_the_run_without_a_sentinel() {
    let (mut task, _) = started(vec![stock("A")]);
    task.step(Event::Fetched(Some(profile("A", 2023, "Q4", 0))));
    task.step(Event::Upserted(true));
    assert!(matches!(
        task.step(Event::DerivedRefreshed(false)),
        Action::Finish(Err(TaskError::PersistenceWrite))
    ));
}

#[test]
fn a_sentinel_that_cannot_be_stored_fails_the_run() {
    let (mut task, _) = started(Vec::new());
    assert!(matches!(
        task.step(Event::SentinelStored(false)),
        Action::Finish(Err(TaskError::SentinelStore))
    ));
}

#[test]
fn an_event_nobody_asked_for_ends_the_run() {
    let mut task = BackfillTask::new(Some(window()), 0);
    assert!(matches!(
        task.step(Event::Upserted(true)),
        Action::Finish(Err(TaskError::UnexpectedEvent))
    ));
    // A finished run stays finished.
    assert!(matches!(
        task.step(Event::SentinelRead(Some(false))),
        Action::Finish(Err(TaskError::UnexpectedEvent))
    ));
}

#[test]
fn a_record_matches_its_own_window_only() {
    assert!(record_matches_window(&profile("A", 2023, "Q4", 0), &window()));
    assert!(!record_matches_window(&profile("A", 2023, "Q1", 0), &window()));
    assert!(!record_matches_window(&profile("A", 2024, "Q4", 0), &window()));
    assert!(!record_matches_window(&profile("A", 2023, "q4", 0), &window()));
}
