//! A whole run of the backfill against the in-memory cache, store and
//! provider, and what such a run amounts to.

use vstd::prelude::*;
use crate::backfill::{
    brings_net_asset_value, has_success, matches_window, sentinel_key, sentinel_key_text, Action,
    BackfillTask, Event, EventView, Ineligible, ItemError, OutcomeView, Phase, ReportView,
    RunReport, TaskError, TaskView, SENTINEL_TTL_SECONDS,
};
use crate::calendar::{target_window, window_before, Date, ReportingWindow, QUARTER_LOOKBACK_DAYS};
use crate::database::{missing_from, Database, DatabaseView};
use crate::financial_statement::StatementView;
use crate::sentinel::{expiry, sentinel_present, Millis, SentinelCache, SentinelMark};
use crate::source::{ProfileSource, ProfileView};
use crate::stock::StockView;

verus! {

/// What the provider answers about a security: `None` stands for a
/// request that failed.
pub open spec fn answer_for(answers: Map<Seq<char>, ProfileView>, stock_symbol: Seq<char>) -> Option<
    ProfileView,
> {
    if answers.contains_key(stock_symbol) {
        Some(answers[stock_symbol])
    } else {
        None
    }
}

/// What becomes of one work item.  It depends on the item and on the
/// provider's answer for it alone, never on any other item.
pub open spec fn item_outcome(
    item: StockView,
    answer: Option<ProfileView>,
    window: ReportingWindow,
    now: Millis,
) -> OutcomeView {
    if item.preference_shares {
        OutcomeView::SkippedIneligible(Ineligible::PreferenceShares)
    } else {
        match answer {
            None => OutcomeView::Failed(ItemError::TransientFetch),
            Some(record) => {
                if !matches_window(record, window) {
                    OutcomeView::Failed(ItemError::ValidationMismatch)
                } else if !StatementView::of_record(record, now).storable() {
                    OutcomeView::Failed(ItemError::PersistenceWrite)
                } else {
                    OutcomeView::Success(StatementView::of_record(record, now))
                }
            },
        }
    }
}

/// The store after one work item: a success writes its statement and,
/// where the security had no net asset value on file and the statement
/// brings one, that value; anything else writes nothing.
pub open spec fn database_after_item(
    database: DatabaseView,
    item: StockView,
    outcome: OutcomeView,
) -> DatabaseView {
    match outcome {
        OutcomeView::Success(statement) => {
            if brings_net_asset_value(item, statement) {
                database.after_upsert(statement).after_net_asset_value(
                    item.stock_symbol,
                    statement.net_asset_value_per_share,
                )
            } else {
                database.after_upsert(statement)
            }
        },
        _ => database,
    }
}

/// The outcomes of the items, one each, in order.
pub open spec fn outcomes_of(
    items: Seq<StockView>,
    answers: Map<Seq<char>, ProfileView>,
    window: ReportingWindow,
    now: Millis,
) -> Seq<OutcomeView> {
    Seq::new(
        items.len(),
        |i: int| item_outcome(items[i], answer_for(answers, items[i].stock_symbol), window, now),
    )
}

/// The store after the items were worked on one after the other.
pub open spec fn database_after_items(
    database: DatabaseView,
    items: Seq<StockView>,
    answers: Map<Seq<char>, ProfileView>,
    window: ReportingWindow,
    now: Millis,
) -> DatabaseView
    decreases items.len(),
{
    if items.len() == 0 {
        database
    } else {
        database_after_item(
            database_after_items(database, items.drop_last(), answers, window, now),
            items.last(),
            item_outcome(
                items.last(),
                answer_for(answers, items.last().stock_symbol),
                window,
                now,
            ),
        )
    }
}

/// The cache, the store and the result after a run.
pub struct RunView {
    pub marks: Map<Seq<char>, SentinelMark>,
    pub database: DatabaseView,
    pub result: Result<ReportView, TaskError>,
}

/// The report of a run that found the sentinel present.
pub open spec fn skipped_report() -> ReportView {
    ReportView {
        skipped: true,
        outcomes: Seq::empty(),
        derived_refreshed: false,
        sentinel_set: false,
    }
}

/// What a run amounts to.
///
/// With the sentinel present nothing happens.  Otherwise the securities
/// without a statement for the window are worked on one after the other,
/// the derived figures are brought up to date if anything was written, and
/// the sentinel is set for a week, however many items failed.
pub open spec fn run_window(
    marks: Map<Seq<char>, SentinelMark>,
    database: DatabaseView,
    answers: Map<Seq<char>, ProfileView>,
    window: Option<ReportingWindow>,
    now: Millis,
) -> RunView {
    if sentinel_present(marks, sentinel_key_text(), now) {
        RunView { marks, database, result: Ok(skipped_report()) }
    } else {
        match window {
            None => RunView { marks, database, result: Err(TaskError::WindowUnavailable) },
            Some(w) => {
                let items = missing_from(database.stocks, database.statements, w);
                let outcomes = outcomes_of(items, answers, w, now);
                let written = database_after_items(database, items, answers, w, now);
                RunView {
                    marks: marks.insert(
                        sentinel_key_text(),
                        SentinelMark { value: true, expires_at: expiry(now, SENTINEL_TTL_SECONDS) },
                    ),
                    database: if has_success(outcomes) {
                        written.after_refresh()
                    } else {
                        written
                    },
                    result: Ok(
                        ReportView {
                            skipped: false,
                            outcomes,
                            derived_refreshed: has_success(outcomes),
                            sentinel_set: true,
                        },
                    ),
                }
            },
        }
    }
}

/// The result of a run as plain values.
pub open spec fn result_view(result: Result<RunReport, TaskError>) -> Result<ReportView, TaskError> {
    match result {
        Ok(report) => Ok(report@),
        Err(error) => Err(error),
    }
}

/// What a run starts from.
struct RunInputs {
    marks: Map<Seq<char>, SentinelMark>,
    database: DatabaseView,
    answers: Map<Seq<char>, ProfileView>,
    window: Option<ReportingWindow>,
    now: Millis,
}

impl RunInputs {
    /// The work set of the run.
    spec fn items(self) -> Seq<StockView> {
        missing_from(self.database.stocks, self.database.statements, self.window->0)
    }

    /// The outcomes of the first `n` items.
    spec fn outcomes_upto(self, n: int) -> Seq<OutcomeView> {
        outcomes_of(self.items().take(n), self.answers, self.window->0, self.now)
    }

    /// The store after the first `n` items.
    spec fn database_upto(self, n: int) -> DatabaseView {
        database_after_items(
            self.database,
            self.items().take(n),
            self.answers,
            self.window->0,
            self.now,
        )
    }

    /// The outcome of item `n`.
    spec fn outcome_at(self, n: int) -> OutcomeView {
        item_outcome(
            self.items()[n],
            answer_for(self.answers, self.items()[n].stock_symbol),
            self.window->0,
            self.now,
        )
    }

    /// What the run amounts to.
    spec fn run(self) -> RunView {
        run_window(self.marks, self.database, self.answers, self.window, self.now)
    }
}

/// A run that is in the middle of its work set, with `task.cursor` items
/// done and the cache untouched.
spec fn among_items(inputs: RunInputs, task: TaskView, marks: Map<Seq<char>, SentinelMark>) -> bool {
    &&& !sentinel_present(inputs.marks, sentinel_key_text(), inputs.now)
    &&& inputs.window is Some
    &&& task.window == inputs.window
    &&& task.now == inputs.now
    &&& task.items == inputs.items()
    &&& 0 <= task.cursor <= task.items.len()
    &&& task.outcomes == inputs.outcomes_upto(task.cursor)
    &&& marks == inputs.marks
    &&& !task.skipped
    &&& !task.sentinel_set
    &&& task.failure is None
}

/// The statement that the current item's answer becomes is pending.
spec fn writing_current(inputs: RunInputs, task: TaskView) -> bool {
    let item = task.items[task.cursor];
    let answer = answer_for(inputs.answers, item.stock_symbol);
    &&& task.cursor < task.items.len()
    &&& !item.preference_shares
    &&& answer is Some
    &&& matches_window(answer->0, inputs.window->0)
    &&& task.pending == Some(StatementView::of_record(answer->0, inputs.now))
}

/// What holds of the machine, the cache and the store between two steps
/// of a run.
spec fn on_track(
    inputs: RunInputs,
    task: TaskView,
    marks: Map<Seq<char>, SentinelMark>,
    database: DatabaseView,
) -> bool {
    match task.phase {
        Phase::CheckingSentinel => {
            &&& task == TaskView::initial(inputs.window, inputs.now)
            &&& marks == inputs.marks
            &&& database == inputs.database
        },
        Phase::ReadingWorkSet => {
            &&& task == (TaskView {
                phase: Phase::ReadingWorkSet,
                ..TaskView::initial(inputs.window, inputs.now)
            })
            &&& !sentinel_present(inputs.marks, sentinel_key_text(), inputs.now)
            &&& inputs.window is Some
            &&& marks == inputs.marks
            &&& database == inputs.database
        },
        Phase::Fetching => {
            &&& among_items(inputs, task, marks)
            &&& !task.derived_refreshed
            &&& task.pending is None
            &&& task.cursor < task.items.len()
            &&& !task.items[task.cursor].preference_shares
            &&& database == inputs.database_upto(task.cursor)
        },
        Phase::Writing => {
            &&& among_items(inputs, task, marks)
            &&& !task.derived_refreshed
            &&& writing_current(inputs, task)
            &&& database == inputs.database_upto(task.cursor)
        },
        Phase::UpdatingNetAssetValue => {
            &&& among_items(inputs, task, marks)
            &&& !task.derived_refreshed
            &&& writing_current(inputs, task)
            &&& task.pending->0.storable()
            &&& brings_net_asset_value(task.items[task.cursor], task.pending->0)
            &&& database == inputs.database_upto(task.cursor).after_upsert(task.pending->0)
        },
        Phase::RefreshingDerived => {
            &&& among_items(inputs, task, marks)
            &&& !task.derived_refreshed
            &&& task.pending is None
            &&& task.cursor == task.items.len()
            &&& has_success(task.outcomes)
            &&& database == inputs.database_upto(task.cursor)
        },
        Phase::StoringSentinel => {
            &&& among_items(inputs, task, marks)
            &&& task.pending is None
            &&& task.cursor == task.items.len()
            &&& task.derived_refreshed == has_success(task.outcomes)
            &&& database == if has_success(task.outcomes) {
                inputs.database_upto(task.cursor).after_refresh()
            } else {
                inputs.database_upto(task.cursor)
            }
        },
        Phase::Finished => (RunView { marks, database, result: task.result() }) == inputs.run(),
    }
}

/// How far a run is from its end: first by stage, then within the stage.
spec fn stage(task: TaskView) -> nat {
    match task.phase {
        Phase::CheckingSentinel => 4,
        Phase::ReadingWorkSet => 3,
        Phase::Fetching | Phase::Writing | Phase::UpdatingNetAssetValue => 2,
        Phase::RefreshingDerived | Phase::StoringSentinel => 1,
        Phase::Finished => 0,
    }
}

spec fn within_stage(task: TaskView) -> nat {
    match task.phase {
        Phase::Fetching => (3 * (task.items.len() - task.cursor) + 2) as nat,
        Phase::Writing => (3 * (task.items.len() - task.cursor) + 1) as nat,
        Phase::UpdatingNetAssetValue => (3 * (task.items.len() - task.cursor)) as nat,
        Phase::RefreshingDerived => 1,
        _ => 0,
    }
}

/// One more item extends the outcomes and the store by that item.
proof fn lemma_one_more_item(inputs: RunInputs, n: int)
    requires
        inputs.window is Some,
        0 <= n < inputs.items().len(),
    ensures
        inputs.outcomes_upto(n + 1) == inputs.outcomes_upto(n).push(inputs.outcome_at(n)),
        inputs.database_upto(n + 1) == database_after_item(
            inputs.database_upto(n),
            inputs.items()[n],
            inputs.outcome_at(n),
        ),
{
    let items = inputs.items();
    assert(items.take(n + 1).drop_last() =~= items.take(n));
    assert(items.take(n + 1).last() == items[n]);
    assert(inputs.outcomes_upto(n + 1) =~= inputs.outcomes_upto(n).push(inputs.outcome_at(n)));
}

/// Skipping the ineligible items keeps a run on track.
proof fn lemma_settled_on_track(
    inputs: RunInputs,
    task: TaskView,
    marks: Map<Seq<char>, SentinelMark>,
    database: DatabaseView,
)
    requires
        among_items(inputs, task, marks),
        !task.derived_refreshed,
        task.pending is None,
        database == inputs.database_upto(task.cursor),
    ensures
        on_track(inputs, task.settled(), marks, database),
        task.settled().phase == Phase::Fetching || task.settled().phase
            == Phase::RefreshingDerived || task.settled().phase == Phase::StoringSentinel,
        task.settled().cursor >= task.cursor,
        task.settled().items == task.items,
    decreases task.items.len() - task.cursor,
{
    if task.cursor < task.items.len() && task.items[task.cursor].preference_shares {
        let next = TaskView {
            outcomes: task.outcomes.push(
                OutcomeView::SkippedIneligible(Ineligible::PreferenceShares),
            ),
            cursor: task.cursor + 1,
            ..task
        };
        lemma_one_more_item(inputs, task.cursor);
        lemma_settled_on_track(inputs, next, marks, database);
    }
}

/// The end of the run agrees with what the run amounts to.
proof fn lemma_whole_work_set(inputs: RunInputs)
    requires
        inputs.window is Some,
    ensures
        inputs.outcomes_upto(inputs.items().len() as int) == outcomes_of(
            inputs.items(),
            inputs.answers,
            inputs.window->0,
            inputs.now,
        ),
        inputs.database_upto(inputs.items().len() as int) == database_after_items(
            inputs.database,
            inputs.items(),
            inputs.answers,
            inputs.window->0,
            inputs.now,
        ),
{
    assert(inputs.items().take(inputs.items().len() as int) =~= inputs.items());
}

/// A run is nearer its end after a step than before.
spec fn nearer(after: TaskView, before: TaskView) -> bool {
    stage(after) < stage(before) || (stage(after) == stage(before) && within_stage(after)
        < within_stage(before))
}

/// Only a finished run asks to stop.
proof fn lemma_stop_means_finished(
    inputs: RunInputs,
    task: TaskView,
    marks: Map<Seq<char>, SentinelMark>,
    database: DatabaseView,
)
    requires
        on_track(inputs, task, marks, database),
        task.asks() is Finish,
    ensures
        task.phase == Phase::Finished,
        (RunView { marks, database, result: task.result() }) == inputs.run(),
{
}

/// The reading of the sentinel keeps the run on track.
proof fn lemma_sentinel_read(
    inputs: RunInputs,
    task: TaskView,
    marks: Map<Seq<char>, SentinelMark>,
    database: DatabaseView,
    done: bool,
)
    requires
        on_track(inputs, task, marks, database),
        task.phase == Phase::CheckingSentinel,
        done == sentinel_present(marks, sentinel_key_text(), inputs.now),
    ensures
        on_track(inputs, task.absorb(EventView::SentinelRead(Some(done))), marks, database),
        nearer(task.absorb(EventView::SentinelRead(Some(done))), task),
{
    let after = task.absorb(EventView::SentinelRead(Some(done)));
    if done {
        assert(after.report() == skipped_report());
    }
}

/// The work set keeps the run on track.
proof fn lemma_work_set(
    inputs: RunInputs,
    task: TaskView,
    marks: Map<Seq<char>, SentinelMark>,
    database: DatabaseView,
    items: Seq<StockView>,
)
    requires
        on_track(inputs, task, marks, database),
        task.phase == Phase::ReadingWorkSet,
        items == inputs.items(),
    ensures
        on_track(inputs, task.absorb(EventView::WorkSet(Some(items))), marks, database),
        nearer(task.absorb(EventView::WorkSet(Some(items))), task),
{
    let fresh = TaskView { items, cursor: 0, outcomes: Seq::empty(), ..task };
    assert(inputs.items().take(0) =~= Seq::empty());
    assert(inputs.outcomes_upto(0) =~= Seq::empty());
    assert(inputs.database_upto(0) == inputs.database);
    lemma_settled_on_track(inputs, fresh, marks, database);
}

/// The provider's answer keeps the run on track.
proof fn lemma_fetched(
    inputs: RunInputs,
    task: TaskView,
    marks: Map<Seq<char>, SentinelMark>,
    database: DatabaseView,
    answer: Option<ProfileView>,
)
    requires
        on_track(inputs, task, marks, database),
        task.phase == Phase::Fetching,
        answer == answer_for(inputs.answers, task.items[task.cursor].stock_symbol),
    ensures
        on_track(inputs, task.absorb(EventView::Fetched(answer)), marks, database),
        nearer(task.absorb(EventView::Fetched(answer)), task),
{
    let after = task.absorb(EventView::Fetched(answer));
    lemma_one_more_item(inputs, task.cursor);
    if answer is None || !matches_window(answer->0, inputs.window->0) {
        let moved = TaskView {
            outcomes: task.outcomes.push(inputs.outcome_at(task.cursor)),
            cursor: task.cursor + 1,
            pending: None,
            ..task
        };
        lemma_settled_on_track(inputs, moved, marks, database);
    }
}

/// The end of a write keeps the run on track.
proof fn lemma_upserted(
    inputs: RunInputs,
    task: TaskView,
    marks: Map<Seq<char>, SentinelMark>,
    before: DatabaseView,
    after: DatabaseView,
    ok: bool,
)
    requires
        on_track(inputs, task, marks, before),
        task.phase == Phase::Writing,
        ok == task.pending->0.storable(),
        ok ==> after == before.after_upsert(task.pending->0),
        !ok ==> after == before,
    ensures
        on_track(inputs, task.absorb(EventView::Upserted(ok)), marks, after),
        nearer(task.absorb(EventView::Upserted(ok)), task),
{
    lemma_one_more_item(inputs, task.cursor);
    if !ok || !brings_net_asset_value(task.items[task.cursor], task.pending->0) {
        let moved = TaskView {
            outcomes: task.outcomes.push(inputs.outcome_at(task.cursor)),
            cursor: task.cursor + 1,
            pending: None,
            ..task
        };
        lemma_settled_on_track(inputs, moved, marks, after);
    }
}

/// The end of the second write keeps the run on track.
proof fn lemma_net_asset_value_updated(
    inputs: RunInputs,
    task: TaskView,
    marks: Map<Seq<char>, SentinelMark>,
    before: DatabaseView,
    after: DatabaseView,
    ok: bool,
)
    requires
        on_track(inputs, task, marks, before),
        task.phase == Phase::UpdatingNetAssetValue,
        after == before.after_net_asset_value(
            task.items[task.cursor].stock_symbol,
            task.pending->0.net_asset_value_per_share,
        ),
    ensures
        on_track(inputs, task.absorb(EventView::NetAssetValueUpdated(ok)), marks, after),
        nearer(task.absorb(EventView::NetAssetValueUpdated(ok)), task),
{
    lemma_one_more_item(inputs, task.cursor);
    let moved = TaskView {
        outcomes: task.outcomes.push(inputs.outcome_at(task.cursor)),
        cursor: task.cursor + 1,
        pending: None,
        ..task
    };
    lemma_settled_on_track(inputs, moved, marks, after);
}

/// The refresh of the derived figures keeps the run on track.
proof fn lemma_derived_refreshed(
    inputs: RunInputs,
    task: TaskView,
    marks: Map<Seq<char>, SentinelMark>,
    database: DatabaseView,
)
    requires
        on_track(inputs, task, marks, database),
        task.phase == Phase::RefreshingDerived,
    ensures
        on_track(
            inputs,
            task.absorb(EventView::DerivedRefreshed(true)),
            marks,
            database.after_refresh(),
        ),
        nearer(task.absorb(EventView::DerivedRefreshed(true)), task),
{
}

/// Storing the sentinel ends the run as it should end.
proof fn lemma_sentinel_stored(
    inputs: RunInputs,
    task: TaskView,
    marks: Map<Seq<char>, SentinelMark>,
    database: DatabaseView,
)
    requires
        on_track(inputs, task, marks, database),
        task.phase == Phase::StoringSentinel,
    ensures
        on_track(
            inputs,
            task.absorb(EventView::SentinelStored(true)),
            marks.insert(
                sentinel_key_text(),
                SentinelMark { value: true, expires_at: expiry(inputs.now, SENTINEL_TTL_SECONDS) },
            ),
            database,
        ),
        nearer(task.absorb(EventView::SentinelStored(true)), task),
{
    lemma_whole_work_set(inputs);
}

/// Runs the backfill against the in-memory cache, store and provider, for
/// a window that was computed beforehand.
pub fn execute_window(
    cache: &mut SentinelCache,
    database: &mut Database,
    source: &ProfileSource,
    window: Option<ReportingWindow>,
    now: Millis,
) -> (result: Result<RunReport, TaskError>)
    ensures
        (RunView {
            marks: final(cache)@,
            database: final(database)@,
            result: result_view(result),
        }) == run_window(old(cache)@, old(database)@, source@, window, now),
{
    let ghost inputs = RunInputs {
        marks: cache@,
        database: database@,
        answers: source@,
        window,
        now,
    };
    let mut task = BackfillTask::new(window, now);
    let mut action = task.pending_action();
    loop
        invariant
            action@ == task@.asks(),
            on_track(inputs, task@, cache@, database@),
            inputs == (RunInputs {
                marks: old(cache)@,
                database: old(database)@,
                answers: source@,
                window,
                now,
            }),
        decreases stage(task@), within_stage(task@),
    {
        let ghost before = task@;
        let ghost marks_before = cache@;
        let ghost database_before = database@;
        match action {
            Action::Finish(result) => {
                proof {
                    lemma_stop_means_finished(inputs, before, marks_before, database_before);
                }
                return result;
            },
            Action::CheckSentinel => {
                let done = cache.get_bool(sentinel_key(), now);
                proof {
                    lemma_sentinel_read(inputs, before, marks_before, database_before, done);
                }
                action = task.step(Event::SentinelRead(Some(done)));
            },
            Action::FindMissing(asked) => {
                let items = database.find_missing(asked);
                proof {
                    lemma_work_set(
                        inputs,
                        before,
                        marks_before,
                        database_before,
                        crate::stock::stock_views(items@),
                    );
                }
                action = task.step(Event::WorkSet(Some(items)));
            },
            Action::Fetch(symbol) => {
                let answer = source.fetch(symbol.as_str());
                proof {
                    lemma_fetched(
                        inputs,
                        before,
                        marks_before,
                        database_before,
                        answer_for(inputs.answers, symbol@),
                    );
                }
                action = task.step(Event::Fetched(answer));
            },
            Action::Upsert(statement) => {
                let written = database.upsert_statement(statement);
                proof {
                    lemma_upserted(
                        inputs,
                        before,
                        marks_before,
                        database_before,
                        database@,
                        written is Ok,
                    );
                }
                action = task.step(Event::Upserted(written.is_ok()));
            },
            Action::UpdateNetAssetValue(symbol, value) => {
                let written = database.update_net_asset_value(symbol.as_str(), value);
                proof {
                    lemma_net_asset_value_updated(
                        inputs,
                        before,
                        marks_before,
                        database_before,
                        database@,
                        written is Ok,
                    );
                }
                action = task.step(Event::NetAssetValueUpdated(written.is_ok()));
            },
            Action::RefreshDerived => {
                database.refresh_derived();
                proof {
                    lemma_derived_refreshed(inputs, before, marks_before, database_before);
                }
                action = task.step(Event::DerivedRefreshed(true));
            },
            Action::StoreSentinel(ttl_seconds) => {
                cache.set(sentinel_key(), true, ttl_seconds, now);
                proof {
                    lemma_sentinel_stored(inputs, before, marks_before, database_before);
                }
                action = task.step(Event::SentinelStored(true));
            },
        }
    }
}

/// Runs the backfill of the statements of the quarter that lies 125 days
/// before `today`, against the in-memory cache, store and provider.
pub fn execute(
    cache: &mut SentinelCache,
    database: &mut Database,
    source: &ProfileSource,
    today: Date,
    now: Millis,
) -> (result: Result<RunReport, TaskError>)
    ensures
        (RunView {
            marks: final(cache)@,
            database: final(database)@,
            result: result_view(result),
        }) == run_window(
            old(cache)@,
            old(database)@,
            source@,
            window_before(today, QUARTER_LOOKBACK_DAYS as int),
            now,
        ),
{
    let window = target_window(today, QUARTER_LOOKBACK_DAYS);
    execute_window(cache, database, source, window, now)
}

} // verus!
