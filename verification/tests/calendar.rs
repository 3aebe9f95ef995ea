use stock_crawler::calendar::{
    month_to_quarter, target_window, window_of, Date, Quarter, ReportingWindow,
    QUARTER_LOOKBACK_DAYS,
};

#[test]
fn every_month_has_its_quarter() {
    let expected = [
        Quarter::Q1,
        Quarter::Q1,
        Quarter::Q1,
        Quarter::Q2,
        Quarter::Q2,
        Quarter::Q2,
        Quarter::Q3,
        Quarter::Q3,
        Quarter::Q3,
        Quarter::Q4,
        Quarter::Q4,
        Quarter::Q4,
    ];
    for month in 1..=12u32 {
        assert_eq!(month_to_quarter(month), Some(expected[(month - 1) as usize]));
    }
}

#[test]
fn a_month_outside_the_year_has_no_quarter() {
    assert_eq!(month_to_quarter(0), None);
    assert_eq!(month_to_quarter(13), None);
    assert_eq!(month_to_quarter(u32::MAX), None);
}

#[test]
fn quarter_labels() {
    assert_eq!(Quarter::Q1.label(), "Q1");
    assert_eq!(Quarter::Q2.label(), "Q2");
    assert_eq!(Quarter::Q3.label(), "Q3");
    assert_eq!(Quarter::Q4.label(), "Q4");
}

#[test]
fn lookback_is_125_days() {
    assert_eq!(QUARTER_LOOKBACK_DAYS, 125);
}

#[test]
fn window_lies_125_days_back() {
    // 2024-05-15 less 125 days is 2024-01-11.
    let today = Date { year: 2024, month: 5, day: 15 };
    assert_eq!(
        target_window(today, 125),
        Some(ReportingWindow { year: 2024, quarter: Quarter::Q1 })
    );
}

#[test]
fn window_crosses_the_year() {
    // 2024-03-01 less 125 days is 2023-10-28.
    let today = Date { year: 2024, month: 3, day: 1 };
    assert_eq!(
        target_window(today, 125),
        Some(ReportingWindow { year: 2023, quarter: Quarter::Q4 })
    );
}

#[test]
fn window_with_no_lookback_is_todays_quarter() {
    let today = Date { year: 2023, month: 9, day: 30 };
    assert_eq!(
        target_window(today, 0),
        Some(ReportingWindow { year: 2023, quarter: Quarter::Q3 })
    );
}

#[test]
fn no_window_for_a_day_that_is_no_date() {
    assert_eq!(target_window(Date { year: 2023, month: 2, day: 30 }, 125), None);
    assert_eq!(target_window(Date { year: 2023, month: 13, day: 1 }, 125), None);
}

#[test]
fn no_window_past_the_range_of_dates() {
    assert_eq!(target_window(Date { year: 2024, month: 1, day: 1 }, u64::MAX), None);
}

#[test]
fn window_of_a_day_takes_its_year_and_quarter() {
    assert_eq!(
        window_of(Date { year: 2022, month: 6, day: 30 }),
        Some(ReportingWindow { year: 2022, quarter: Quarter::Q2 })
    );
    assert_eq!(window_of(Date { year: 2022, month: 0, day: 1 }), None);
}

#[test]
fn dates_are_read_and_written() {
    assert_eq!(Date::parse("2024-02-10"), Some(Date { year: 2024, month: 2, day: 10 }));
    assert_eq!(Date::parse("2024-02-30"), None);
    assert_eq!(Date::parse("holiday"), None);
    assert_eq!(Date { year: 2024, month: 2, day: 10 }.format(), Some("2024-02-10".to_string()));
    assert_eq!(Date { year: 2023, month: 2, day: 29 }.format(), None);
}
