use stock_crawler::scheduler::{
    install, run_cron, start, startup_message, timetable, Firing, Scheduler, SchedulerConfigError,
    SchedulerState, Task, Trigger,
};

#[test]
fn the_timetable_has_its_eight_triggers() {
    let table = timetable();
    let expressions: Vec<&str> = table.iter().map(|t| t.expression.as_str()).collect();
    assert_eq!(
        expressions,
        vec![
            "0 0 17 * * *",
            "0 0 19 * * *",
            "0 0 21 * * *",
            "0 0 0 * * *",
            "0 0 7 * * *",
            "0 1 7 * * *",
            "0 0 13 * * *",
            "0 * * * * *",
        ]
    );
    assert_eq!(table[0].tasks, vec![Task::FinancialStatementQuarter, Task::NetAssetValueEmerging]);
    assert_eq!(table[1].tasks, vec![Task::NetAssetValueZeroValue, Task::FinancialStatementAnnual]);
    assert_eq!(
        table[2].tasks,
        vec![
            Task::Revenue,
            Task::InternationalSecuritiesIdentificationNumber,
            Task::DelistedCompany,
            Task::StockWeight,
        ]
    );
    assert_eq!(table[3].tasks, vec![Task::ExDividendReminder]);
    assert_eq!(table[4].tasks, vec![Task::TaiwanCapitalizationWeightedStockIndex]);
    assert_eq!(table[5].tasks, vec![Task::Quotes]);
    assert_eq!(table[6].tasks, vec![Task::Dividend]);
    assert_eq!(table[7].tasks, vec![Task::FreeDnsUpdate]);
}

#[test]
fn the_crawlers_schedule_is_accepted_and_runs() {
    let scheduler = run_cron().unwrap();
    assert_eq!(scheduler.state(), SchedulerState::Running);
    assert_eq!(scheduler.len(), 8);
    assert_eq!(
        scheduler.fire("0 0 19 * * *"),
        vec![Task::NetAssetValueZeroValue, Task::FinancialStatementAnnual]
    );
    assert_eq!(scheduler.fire("0 * * * * *"), vec![Task::FreeDnsUpdate]);
    assert!(scheduler.fire("0 0 1 * * *").is_empty());
    let copies = scheduler.triggers();
    assert_eq!(copies.len(), 8);
    assert_eq!(copies[5].expression, "0 1 7 * * *");
}

#[test]
fn a_broken_expression_is_refused_at_registration() {
    let mut scheduler = Scheduler::new();
    assert_eq!(
        scheduler.register("every now and then", vec![Task::Quotes]),
        Err(SchedulerConfigError::InvalidExpression)
    );
    assert_eq!(
        scheduler.register("0 0 25 * * *", vec![Task::Quotes]),
        Err(SchedulerConfigError::InvalidExpression)
    );
    assert_eq!(scheduler.register("", vec![Task::Quotes]), Err(SchedulerConfigError::InvalidExpression));
    // The seconds are required: five fields are not enough.
    assert_eq!(
        scheduler.register("0 17 * * *", vec![Task::Quotes]),
        Err(SchedulerConfigError::InvalidExpression)
    );
    assert_eq!(scheduler.len(), 0);
    assert_eq!(scheduler.register("0 0 17 * * *", vec![Task::Quotes]), Ok(()));
    assert_eq!(scheduler.len(), 1);
}

#[test]
fn an_expression_is_registered_once() {
    let mut scheduler = Scheduler::new();
    assert_eq!(scheduler.register("0 0 17 * * *", vec![Task::Quotes]), Ok(()));
    assert_eq!(
        scheduler.register("0 0 17 * * *", vec![Task::Dividend]),
        Err(SchedulerConfigError::DuplicateTrigger)
    );
    assert_eq!(scheduler.len(), 1);
    assert!(scheduler.start());
    assert_eq!(scheduler.fire("0 0 17 * * *"), vec![Task::Quotes]);
}

#[test]
fn the_states_only_move_forward() {
    let mut scheduler = Scheduler::new();
    assert_eq!(scheduler.state(), SchedulerState::Registered);
    scheduler.register("0 0 17 * * *", vec![Task::Quotes]).unwrap();
    // Nothing fires before the start.
    assert!(scheduler.fire("0 0 17 * * *").is_empty());
    assert!(scheduler.start());
    assert_eq!(scheduler.state(), SchedulerState::Running);
    assert!(!scheduler.start());
    assert_eq!(
        scheduler.register("0 0 18 * * *", vec![Task::Dividend]),
        Err(SchedulerConfigError::AlreadyStarted)
    );
    scheduler.stop();
    assert_eq!(scheduler.state(), SchedulerState::Stopped);
    assert!(!scheduler.start());
    assert_eq!(scheduler.state(), SchedulerState::Stopped);
    assert!(scheduler.fire("0 0 17 * * *").is_empty());
}

#[test]
fn a_known_answer_decides_the_registration() {
    let mut scheduler = Scheduler::new();
    assert_eq!(
        scheduler.register_checked(Trigger::new("anything", vec![Task::Quotes]), false),
        Err(SchedulerConfigError::InvalidExpression)
    );
    assert_eq!(
        scheduler.register_checked(Trigger::new("anything", vec![Task::Quotes]), true),
        Ok(())
    );
    assert_eq!(
        scheduler.register_checked(Trigger::new("anything", vec![Task::Quotes]), true),
        Err(SchedulerConfigError::DuplicateTrigger)
    );
}

#[test]
fn a_table_with_a_broken_trigger_starts_nothing() {
    let table = vec![
        Trigger::new("0 0 17 * * *", vec![Task::Quotes]),
        Trigger::new("nonsense", vec![Task::Dividend]),
        Trigger::new("0 0 17 * * *", vec![Task::Revenue]),
    ];
    assert!(matches!(install(table), Err(SchedulerConfigError::InvalidExpression)));
    let table = vec![
        Trigger::new("0 0 17 * * *", vec![Task::Quotes]),
        Trigger::new("0 0 17 * * *", vec![Task::Revenue]),
        Trigger::new("nonsense", vec![Task::Dividend]),
    ];
    assert!(matches!(install(table), Err(SchedulerConfigError::DuplicateTrigger)));
    let scheduler = install(Vec::new()).unwrap();
    assert_eq!(scheduler.state(), SchedulerState::Running);
    assert_eq!(scheduler.len(), 0);
}

#[test]
fn a_task_that_fails_cancels_nothing() {
    let mut firing = Firing::new(vec![Task::Revenue, Task::DelistedCompany, Task::StockWeight]);
    assert_eq!(firing.next_task(), Some(Task::Revenue));
    firing.record(false);
    assert_eq!(firing.next_task(), Some(Task::DelistedCompany));
    firing.record(true);
    assert_eq!(firing.next_task(), Some(Task::StockWeight));
    assert!(!firing.is_done());
    firing.record(false);
    assert_eq!(firing.next_task(), None);
    assert!(firing.is_done());
    firing.record(true);
    assert_eq!(firing.results(), vec![false, true, false]);
}

#[test]
fn tasks_are_logged_under_their_names() {
    assert_eq!(
        Task::FinancialStatementQuarter.log_name(),
        Some("backfill::financial_statement::quarter::execute")
    );
    assert_eq!(
        Task::FinancialStatementAnnual.log_name(),
        Some("backfill::financial_statement::annual::execute")
    );
    assert_eq!(
        Task::NetAssetValueEmerging.log_name(),
        Some("backfill::net_asset_value_per_share::emerging::execute")
    );
    assert_eq!(
        Task::NetAssetValueZeroValue.log_name(),
        Some("backfill::net_asset_value_per_share::zero_value::execute")
    );
    assert_eq!(
        Task::InternationalSecuritiesIdentificationNumber.log_name(),
        Some("backfill::international_securities_identification_number::execute")
    );
    assert_eq!(Task::DelistedCompany.log_name(), Some("backfill::delisted_company::execute"));
    assert_eq!(Task::Revenue.log_name(), Some("backfill::revenue::execute"));
    assert_eq!(
        Task::TaiwanCapitalizationWeightedStockIndex.log_name(),
        Some("backfill::taiwan_capitalization_weighted_stock_index::execute")
    );
    assert_eq!(Task::Quotes.log_name(), Some("backfill::quotes::execute"));
    assert_eq!(Task::Dividend.log_name(), Some("backfill::dividend::execute"));
    assert_eq!(Task::StockWeight.log_name(), Some("backfill::stock_weight::execute"));
    assert_eq!(Task::ExDividendReminder.log_name(), None);
    assert_eq!(Task::FreeDnsUpdate.log_name(), None);
}

#[test]
fn the_start_is_announced() {
    assert_eq!(
        startup_message("linux", "x86_64"),
        "StockCrawler 已啟動\r\nRust OS/Arch: linux/x86_64\r\n"
    );
    let startup = start("macos", "aarch64");
    assert_eq!(startup.notice, "StockCrawler 已啟動\r\nRust OS/Arch: macos/aarch64\r\n");
    assert_eq!(startup.scheduler.unwrap().state(), SchedulerState::Running);
}
