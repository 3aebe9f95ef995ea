//! What a run of the backfill guarantees, proved from what a run amounts to.

use vstd::prelude::*;
use crate::backfill::{
    count_fetched, count_successes, has_success, matches_window, sentinel_key_text, ActionView,
    EventView, ItemError, OutcomeView, Phase, ReportView, TaskError, TaskView,
};
use crate::calendar::{quarter_label, ReportingWindow};
use crate::database::{missing_from, window_key, DatabaseView};
use crate::financial_statement::{upserted, StatementKey, StatementView};
use crate::run::{
    answer_for, database_after_item, database_after_items, item_outcome, outcomes_of, run_window,
    skipped_report, RunView,
};
use crate::sentinel::{expiry, sentinel_present, Millis, SentinelMark};
use crate::source::ProfileView;
use crate::stock::StockView;
use crate::backfill::SENTINEL_TTL_SECONDS;

verus! {

/// Writing the same statement twice leaves the table as writing it once.
pub proof fn law_upsert_is_idempotent(
    rows: Map<StatementKey, StatementView>,
    statement: StatementView,
)
    ensures
        upserted(upserted(rows, statement), statement) == upserted(rows, statement),
{
    assert(upserted(upserted(rows, statement), statement) =~= upserted(rows, statement));
}

/// Writes of statements with different natural keys may come in either
/// order.
pub proof fn law_upserts_commute(
    rows: Map<StatementKey, StatementView>,
    first: StatementView,
    second: StatementView,
)
    requires
        first.key() != second.key(),
    ensures
        upserted(upserted(rows, first), second) == upserted(upserted(rows, second), first),
{
    assert(upserted(upserted(rows, first), second) =~= upserted(upserted(rows, second), first));
}

/// With nothing missing, a run writes nothing and still sets the sentinel.
pub proof fn law_empty_work_set(
    marks: Map<Seq<char>, SentinelMark>,
    database: DatabaseView,
    answers: Map<Seq<char>, ProfileView>,
    window: ReportingWindow,
    now: Millis,
)
    requires
        !sentinel_present(marks, sentinel_key_text(), now),
        missing_from(database.stocks, database.statements, window).len() == 0,
    ensures
        ({
            let run = run_window(marks, database, answers, Some(window), now);
            &&& run.database == database
            &&& run.result is Ok
            &&& run.result->Ok_0.outcomes.len() == 0
            &&& run.result->Ok_0.upserts() == 0
            &&& run.result->Ok_0.sentinel_set
            &&& run.marks.contains_key(sentinel_key_text())
            &&& run.marks[sentinel_key_text()] == (SentinelMark {
                value: true,
                expires_at: expiry(now, SENTINEL_TTL_SECONDS),
            })
        }),
{
    let items = missing_from(database.stocks, database.statements, window);
    let outcomes = outcomes_of(items, answers, window, now);
    assert(outcomes =~= Seq::empty());
    assert(!has_success(outcomes));
}

/// With the sentinel present and unexpired, a run touches neither the
/// cache nor the store, reads nothing and calls no provider.
pub proof fn law_sentinel_is_respected(
    marks: Map<Seq<char>, SentinelMark>,
    database: DatabaseView,
    answers: Map<Seq<char>, ProfileView>,
    window: Option<ReportingWindow>,
    now: Millis,
)
    requires
        sentinel_present(marks, sentinel_key_text(), now),
    ensures
        run_window(marks, database, answers, window, now) == (RunView {
            marks,
            database,
            result: Ok(skipped_report()),
        }),
        skipped_report().persistence_reads() == 0,
        skipped_report().source_calls() == 0,
        skipped_report().upserts() == 0,
{
}

/// Told that the sentinel is present, the machine stops at once: it asks
/// for no read of the store and no call of the provider.
pub proof fn law_present_sentinel_stops_the_machine(
    window: Option<ReportingWindow>,
    now: Millis,
)
    ensures
        TaskView::initial(window, now).asks() == ActionView::CheckSentinel,
        TaskView::initial(window, now).absorb(EventView::SentinelRead(Some(true))).asks()
            == ActionView::Finish(Ok(skipped_report())),
{
    let after = TaskView::initial(window, now).absorb(EventView::SentinelRead(Some(true)));
    assert(after.report() == skipped_report());
}

/// A run that is over stays over: whatever it is told afterwards, it asks
/// for nothing but to stop, with the result it had.  In particular a run
/// that failed never comes to store the sentinel.
pub proof fn law_a_finished_run_stays_finished(task: TaskView, event: EventView)
    requires
        task.phase == Phase::Finished,
    ensures
        task.absorb(event) == task,
        task.absorb(event).asks() == ActionView::Finish(task.result()),
{
}

/// Every failure of a whole run ends it at once, before the sentinel is
/// stored: a failed read of the work set, a failed refresh of the derived
/// figures and a sentinel that cannot be stored.
pub proof fn law_a_failed_run_stores_no_sentinel(task: TaskView)
    ensures
        task.phase == Phase::ReadingWorkSet ==> task.absorb(EventView::WorkSet(None)).asks()
            == ActionView::Finish(Err(TaskError::PersistenceRead)),
        task.phase == Phase::RefreshingDerived ==> task.absorb(
            EventView::DerivedRefreshed(false),
        ).asks() == ActionView::Finish(Err(TaskError::PersistenceWrite)),
        task.phase == Phase::StoringSentinel ==> task.absorb(
            EventView::SentinelStored(false),
        ).asks() == ActionView::Finish(Err(TaskError::SentinelStore)),
        task.phase == Phase::StoringSentinel ==> task.absorb(
            EventView::SentinelStored(false),
        ).sentinel_set == task.sentinel_set,
{
}

/// A cache that cannot be read counts as a cache without the sentinel: the
/// run goes on to its work set.
pub proof fn law_an_unreadable_cache_lets_the_run_proceed(window: ReportingWindow, now: Millis)
    ensures
        TaskView::initial(Some(window), now).absorb(EventView::SentinelRead(None)).asks()
            == ActionView::FindMissing(window),
        TaskView::initial(Some(window), now).absorb(EventView::SentinelRead(None))
            == TaskView::initial(Some(window), now).absorb(EventView::SentinelRead(Some(false))),
{
}

/// A record for another period than the one asked for is never written:
/// the machine gives the item its failure and goes on to the next action,
/// which is no write.
pub proof fn law_mismatch_is_never_written(task: TaskView, record: ProfileView)
    requires
        task.phase == Phase::Fetching,
        task.current() is Some,
        task.window is Some,
        !matches_window(record, task.window->0),
    ensures
        ({
            let after = task.absorb(EventView::Fetched(Some(record)));
            &&& !(after.asks() is Upsert)
            &&& !(after.asks() is UpdateNetAssetValue)
            &&& after.outcomes.len() > task.outcomes.len()
            &&& after.outcomes[task.outcomes.len() as int] == OutcomeView::Failed(
                ItemError::ValidationMismatch,
            )
        }),
{
    let moved = TaskView {
        outcomes: task.outcomes.push(OutcomeView::Failed(ItemError::ValidationMismatch)),
        cursor: task.cursor + 1,
        pending: None,
        ..task
    };
    lemma_settled_keeps_outcomes(moved);
    let after = task.absorb(EventView::Fetched(Some(record)));
    assert(after == moved.settled());
    assert(moved.outcomes[task.outcomes.len() as int] == OutcomeView::Failed(
        ItemError::ValidationMismatch,
    ));
}

/// Skipping ineligible items keeps the outcomes that are there and ends in
/// a state that asks for a fetch or for the winding up.
pub proof fn lemma_settled_keeps_outcomes(task: TaskView)
    requires
        0 <= task.cursor <= task.items.len(),
    ensures
        task.settled().outcomes.len() >= task.outcomes.len(),
        forall|i: int|
            0 <= i < task.outcomes.len() ==> #[trigger] task.settled().outcomes[i]
                == task.outcomes[i],
        task.settled().phase == Phase::Fetching || task.settled().phase
            == Phase::RefreshingDerived || task.settled().phase == Phase::StoringSentinel,
        task.settled().phase == Phase::Fetching ==> task.settled().current() is Some,
    decreases task.items.len() - task.cursor,
{
    if task.cursor < task.items.len() && task.items[task.cursor].preference_shares {
        let next = TaskView {
            outcomes: task.outcomes.push(
                OutcomeView::SkippedIneligible(crate::backfill::Ineligible::PreferenceShares),
            ),
            cursor: task.cursor + 1,
            ..task
        };
        lemma_settled_keeps_outcomes(next);
        assert forall|i: int| 0 <= i < task.outcomes.len() implies #[trigger] task.settled().outcomes[i]
            == task.outcomes[i] by {
            assert(next.outcomes[i] == task.outcomes[i]);
        }
    }
}

/// Whether a key belongs to the window.
pub open spec fn in_window(key: StatementKey, window: ReportingWindow) -> bool {
    key.year == window.year as i64 && key.quarter == quarter_label(window.quarter)
}

/// Whether a stored row carries the figures of a statement: all but the
/// time of creation and the serial, which a row keeps from its first write.
pub open spec fn carries(row: StatementView, statement: StatementView) -> bool {
    row == (StatementView { created_time: row.created_time, serial: row.serial, ..statement })
}

/// Whether item `k` is the last of the items whose success has its key.
pub open spec fn last_under_its_key(outcomes: Seq<OutcomeView>, k: int) -> bool {
    forall|l: int|
        k < l < outcomes.len() && (#[trigger] outcomes[l]) is Success ==> outcomes[l]->Success_0.key()
            != outcomes[k]->Success_0.key()
}

/// Whether every statement that a run writes is filed under the security
/// it was fetched for: a provider that is asked about one security and
/// answers with the record of another breaks this.
pub open spec fn written_in_kind(
    database: DatabaseView,
    answers: Map<Seq<char>, ProfileView>,
    window: ReportingWindow,
    now: Millis,
) -> bool {
    let items = missing_from(database.stocks, database.statements, window);
    let outcomes = outcomes_of(items, answers, window, now);
    forall|k: int|
        0 <= k < items.len() && (#[trigger] outcomes[k]) is Success
            ==> outcomes[k]->Success_0.security_code == items[k].stock_symbol
}

/// What working on a list of items keeps and what it leaves behind.
pub proof fn lemma_items_keep(
    database: DatabaseView,
    items: Seq<StockView>,
    answers: Map<Seq<char>, ProfileView>,
    window: ReportingWindow,
    now: Millis,
)
    ensures
        ({
            let after = database_after_items(database, items, answers, window, now);
            let outcomes = outcomes_of(items, answers, window, now);
            &&& after.stocks.len() == database.stocks.len()
            &&& forall|j: int|
                0 <= j < database.stocks.len() ==> (#[trigger] after.stocks[j]).stock_symbol
                    == database.stocks[j].stock_symbol && after.stocks[j].preference_shares
                    == database.stocks[j].preference_shares
            &&& forall|key: StatementKey|
                database.statements.contains_key(key) ==> #[trigger] after.statements.contains_key(
                    key,
                )
            &&& forall|key: StatementKey|
                !in_window(key, window) ==> (#[trigger] after.statements.contains_key(key)
                    == database.statements.contains_key(key)) && (
                after.statements.contains_key(key) ==> after.statements[key]
                    == database.statements[key])
            &&& forall|k: int|
                0 <= k < items.len() && (#[trigger] outcomes[k]) is Success
                    ==> after.statements.contains_key(outcomes[k]->Success_0.key())
            &&& forall|k: int|
                0 <= k < items.len() && (#[trigger] outcomes[k]) is Success && last_under_its_key(
                    outcomes,
                    k,
                ) ==> carries(
                    after.statements[outcomes[k]->Success_0.key()],
                    outcomes[k]->Success_0,
                )
        }),
    decreases items.len(),
{
    if items.len() > 0 {
        let front = items.drop_last();
        let item = items.last();
        let n = items.len() - 1;
        lemma_items_keep(database, front, answers, window, now);
        let before = database_after_items(database, front, answers, window, now);
        let after = database_after_items(database, items, answers, window, now);
        let outcomes = outcomes_of(items, answers, window, now);
        let earlier = outcomes_of(front, answers, window, now);
        let outcome = outcomes[n];
        assert(outcome == item_outcome(
            item,
            answer_for(answers, item.stock_symbol),
            window,
            now,
        ));
        assert(after == database_after_item(before, item, outcome));
        assert forall|k: int| 0 <= k < front.len() implies #[trigger] outcomes[k] == earlier[k] by {}
        assert forall|k: int|
            0 <= k < items.len() && (#[trigger] outcomes[k]) is Success implies after.statements.contains_key(
            outcomes[k]->Success_0.key(),
        ) by {
            if k < n {
                assert(outcomes[k] == earlier[k]);
                assert(before.statements.contains_key(earlier[k]->Success_0.key()));
            }
        }
        assert forall|k: int|
            0 <= k < items.len() && (#[trigger] outcomes[k]) is Success && last_under_its_key(
                outcomes,
                k,
            ) implies carries(
            after.statements[outcomes[k]->Success_0.key()],
            outcomes[k]->Success_0,
        ) by {
            if k < n {
                assert(outcomes[k] == earlier[k]);
                assert(last_under_its_key(earlier, k)) by {
                    assert forall|l: int|
                        k < l < earlier.len() && (#[trigger] earlier[l]) is Success implies earlier[l]->Success_0.key()
                        != earlier[k]->Success_0.key() by {
                        assert(outcomes[l] == earlier[l]);
                    }
                }
                if outcome is Success {
                    assert(outcomes[n]->Success_0.key() != outcomes[k]->Success_0.key());
                }
            }
        }
    }
}

/// What the work set is made of: exactly the securities that have no
/// statement for the window.
pub proof fn lemma_missing_members(
    stocks: Seq<StockView>,
    statements: Map<StatementKey, StatementView>,
    window: ReportingWindow,
)
    ensures
        ({
            let missing = missing_from(stocks, statements, window);
            &&& forall|k: int|
                #![trigger missing[k]]
                0 <= k < missing.len() ==> exists|j: int|
                    #![trigger stocks[j]]
                    0 <= j < stocks.len() && stocks[j] == missing[k] && !statements.contains_key(
                        window_key(stocks[j].stock_symbol, window),
                    )
            &&& forall|j: int|
                #![trigger stocks[j]]
                0 <= j < stocks.len() && !statements.contains_key(
                    window_key(stocks[j].stock_symbol, window),
                ) ==> exists|k: int|
                    #![trigger missing[k]]
                    0 <= k < missing.len() && missing[k] == stocks[j]
        }),
    decreases stocks.len(),
{
    let missing = missing_from(stocks, statements, window);
    if stocks.len() > 0 {
        let front = stocks.drop_last();
        let earlier = missing_from(front, statements, window);
        let n = stocks.len() - 1;
        lemma_missing_members(front, statements, window);
        assert forall|k: int| #![trigger missing[k]] 0 <= k < missing.len() implies exists|j: int|
            #![trigger stocks[j]]
            0 <= j < stocks.len() && stocks[j] == missing[k] && !statements.contains_key(
                window_key(stocks[j].stock_symbol, window),
            ) by {
            if k < earlier.len() {
                assert(missing[k] == earlier[k]);
                let j = choose|j: int|
                    #![trigger front[j]]
                    0 <= j < front.len() && front[j] == earlier[k] && !statements.contains_key(
                        window_key(front[j].stock_symbol, window),
                    );
                assert(stocks[j] == front[j]);
            } else {
                assert(stocks[n] == missing[k]);
            }
        }
        assert forall|j: int|
            #![trigger stocks[j]]
            0 <= j < stocks.len() && !statements.contains_key(
                window_key(stocks[j].stock_symbol, window),
            ) implies exists|k: int|
            #![trigger missing[k]]
            0 <= k < missing.len() && missing[k] == stocks[j] by {
            if j < n {
                assert(front[j] == stocks[j]);
                let k = choose|k: int|
                    #![trigger earlier[k]]
                    0 <= k < earlier.len() && earlier[k] == front[j];
                assert(missing[k] == earlier[k]);
            } else {
                assert(missing[missing.len() - 1] == stocks[j]);
            }
        }
    }
}

/// Items of which none succeeds leave the store as it is.
pub proof fn lemma_no_success_no_change(
    database: DatabaseView,
    items: Seq<StockView>,
    answers: Map<Seq<char>, ProfileView>,
    window: ReportingWindow,
    now: Millis,
)
    requires
        !has_success(outcomes_of(items, answers, window, now)),
    ensures
        database_after_items(database, items, answers, window, now) == database,
    decreases items.len(),
{
    if items.len() > 0 {
        let front = items.drop_last();
        let outcomes = outcomes_of(items, answers, window, now);
        let earlier = outcomes_of(front, answers, window, now);
        assert forall|k: int| 0 <= k < earlier.len() implies !(#[trigger] earlier[k] is Success) by {
            assert(outcomes[k] == earlier[k]);
        }
        lemma_no_success_no_change(database, front, answers, window, now);
        assert(!(outcomes[items.len() - 1] is Success));
    }
}

/// A record for another period than the one asked for is never reflected
/// in the store: a run leaves every row outside its window as it was, and
/// the item that got such a record is marked as mismatched.
pub proof fn law_run_writes_its_window_only(
    marks: Map<Seq<char>, SentinelMark>,
    database: DatabaseView,
    answers: Map<Seq<char>, ProfileView>,
    window: ReportingWindow,
    now: Millis,
)
    ensures
        ({
            let run = run_window(marks, database, answers, Some(window), now);
            let items = missing_from(database.stocks, database.statements, window);
            &&& forall|key: StatementKey|
                !in_window(key, window) ==> (#[trigger] run.database.statements.contains_key(key)
                    == database.statements.contains_key(key)) && (database.statements.contains_key(
                    key,
                ) ==> run.database.statements[key] == database.statements[key])
            &&& !sentinel_present(marks, sentinel_key_text(), now) ==> forall|k: int|
                #![trigger items[k]]
                0 <= k < items.len() && !items[k].preference_shares && answers.contains_key(
                    items[k].stock_symbol,
                ) && !matches_window(answers[items[k].stock_symbol], window)
                    ==> run.result->Ok_0.outcomes[k] == OutcomeView::Failed(
                    ItemError::ValidationMismatch,
                )
        }),
{
    let items = missing_from(database.stocks, database.statements, window);
    let run = run_window(marks, database, answers, Some(window), now);
    let written = database_after_items(database, items, answers, window, now);
    lemma_items_keep(database, items, answers, window, now);
    assert(run.database.statements == written.statements || run.database == database);
    assert forall|key: StatementKey| !in_window(key, window) implies (
    #[trigger] run.database.statements.contains_key(key) == database.statements.contains_key(key))
        && (database.statements.contains_key(key) ==> run.database.statements[key]
        == database.statements[key]) by {
        assert(written.statements.contains_key(key) == database.statements.contains_key(key));
    }
}

/// One item that fails stops no other: a run that is not skipped gives
/// every item of the work set its outcome, each outcome depends on its own
/// item and answer alone, and every success is in the store afterwards,
/// with its figures unless a later item wrote under the same key.
pub proof fn law_failures_are_isolated(
    marks: Map<Seq<char>, SentinelMark>,
    database: DatabaseView,
    answers: Map<Seq<char>, ProfileView>,
    window: ReportingWindow,
    now: Millis,
)
    requires
        !sentinel_present(marks, sentinel_key_text(), now),
    ensures
        ({
            let run = run_window(marks, database, answers, Some(window), now);
            let items = missing_from(database.stocks, database.statements, window);
            &&& run.result is Ok
            &&& run.result->Ok_0.sentinel_set
            &&& run.result->Ok_0.outcomes.len() == items.len()
            &&& forall|k: int|
                0 <= k < items.len() ==> #[trigger] run.result->Ok_0.outcomes[k] == item_outcome(
                    items[k],
                    answer_for(answers, items[k].stock_symbol),
                    window,
                    now,
                )
            &&& forall|k: int|
                0 <= k < items.len() && (#[trigger] run.result->Ok_0.outcomes[k]) is Success
                    ==> run.database.statements.contains_key(
                    run.result->Ok_0.outcomes[k]->Success_0.key(),
                )
            &&& forall|k: int|
                0 <= k < items.len() && (#[trigger] run.result->Ok_0.outcomes[k]) is Success
                    && last_under_its_key(run.result->Ok_0.outcomes, k) ==> carries(
                    run.database.statements[run.result->Ok_0.outcomes[k]->Success_0.key()],
                    run.result->Ok_0.outcomes[k]->Success_0,
                )
        }),
{
    let items = missing_from(database.stocks, database.statements, window);
    lemma_items_keep(database, items, answers, window, now);
}

/// Running twice is running once: after a run that was not skipped and
/// that filed every statement under the security it was fetched for, a
/// second run with the cache cleared, at any later moment, against a
/// provider that answers as before, leaves the store exactly as the first
/// run left it.
pub proof fn law_second_run_changes_nothing(
    marks: Map<Seq<char>, SentinelMark>,
    database: DatabaseView,
    answers: Map<Seq<char>, ProfileView>,
    window: Option<ReportingWindow>,
    now: Millis,
    cleared: Map<Seq<char>, SentinelMark>,
    later: Millis,
)
    requires
        !sentinel_present(marks, sentinel_key_text(), now),
        window is Some ==> written_in_kind(database, answers, window->0, now),
    ensures
        ({
            let first = run_window(marks, database, answers, window, now);
            let second = run_window(cleared, first.database, answers, window, later);
            second.database == first.database
        }),
{
    if window is Some && !sentinel_present(cleared, sentinel_key_text(), later) {
        let w = window->0;
        let first = run_window(marks, database, answers, window, now);
        let items = missing_from(database.stocks, database.statements, w);
        let outcomes = outcomes_of(items, answers, w, now);
        let written = database_after_items(database, items, answers, w, now);
        lemma_items_keep(database, items, answers, w, now);
        lemma_missing_members(database.stocks, database.statements, w);
        let stocks2 = first.database.stocks;
        let statements2 = first.database.statements;
        assert(stocks2 == written.stocks);
        assert(statements2 == written.statements);
        lemma_missing_members(stocks2, statements2, w);
        let items2 = missing_from(stocks2, statements2, w);
        let outcomes2 = outcomes_of(items2, answers, w, later);
        assert forall|k: int| 0 <= k < outcomes2.len() implies !(#[trigger] outcomes2[k] is Success) by {
            if outcomes2[k] is Success {
                let j = choose|j: int|
                    #![trigger stocks2[j]]
                    0 <= j < stocks2.len() && stocks2[j] == items2[k] && !statements2.contains_key(
                        window_key(stocks2[j].stock_symbol, w),
                    );
                let symbol = stocks2[j].stock_symbol;
                assert(database.stocks[j].stock_symbol == symbol);
                assert(!database.statements.contains_key(window_key(symbol, w)));
                let i = choose|i: int|
                    #![trigger items[i]]
                    0 <= i < items.len() && items[i] == database.stocks[j];
                assert(outcomes[i] == item_outcome(
                    items[i],
                    answer_for(answers, symbol),
                    w,
                    now,
                ));
                assert(outcomes[i] is Success);
                assert(outcomes[i]->Success_0.key() == window_key(symbol, w));
                assert(written.statements.contains_key(window_key(symbol, w)));
            }
        }
        lemma_no_success_no_change(first.database, items2, answers, w, later);
    }
}

} // verus!
