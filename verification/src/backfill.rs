//! The backfill of quarterly financial statements, as a machine that is
//! told what happened and says what to do next.
//!
//! The machine does no outside work itself.  Whoever drives it performs
//! each action it asks for (read the sentinel, query the store, call the
//! provider through the fetch gate, write) and reports the result as an
//! event.  One item that fails never stops the others.
//!
//! Two choices are made on purpose.  The sentinel is stored after every run
//! that worked through its whole work set, however many items failed: this
//! bounds the load on the provider, at the price that an item which failed
//! waits for the sentinel to expire.  A run that is cut short (the work set
//! cannot be read, the derived figures cannot be refreshed) stores none and
//! is tried again at the next trigger.  And the figures derived from the
//! statements are refreshed exactly when at least one statement was
//! written in the run.

use vstd::prelude::*;
use crate::amount::Amount;
use crate::calendar::{quarter_label, ReportingWindow};
use crate::financial_statement::{FinancialStatement, StatementView};
use crate::sentinel::{reading_means_done, reading_says_done, Millis};
use crate::source::{Profile, ProfileView};
use crate::stock::{stock_views, Stock, StockView};

verus! {

/// How long the sentinel of a finished run lasts: one week.
pub const SENTINEL_TTL_SECONDS: u64 = 60 * 60 * 24 * 7;

/// The text of the key under which the sentinel is kept.
pub open spec fn sentinel_key_text() -> Seq<char> {
    "financial_statement::yahoo"@
}

/// The key under which the sentinel is kept.
pub fn sentinel_key() -> (key: &'static str)
    ensures
        key@ == sentinel_key_text(),
{
    "financial_statement::yahoo"
}

/// Why an item was not worked on.
#[derive(Clone, Copy, Debug, PartialEq, Eq, Structural)]
pub enum Ineligible {
    /// Preference shares file no statements of their own.
    PreferenceShares,
}

/// Why one item failed.  The run goes on with the next item.
#[derive(Clone, Copy, Debug, PartialEq, Eq, Structural)]
pub enum ItemError {
    /// The provider could not be reached or did not answer in time.
    TransientFetch,
    /// The provider answered for another period than the one asked for.
    ValidationMismatch,
    /// The store refused the write.
    PersistenceWrite,
}

/// Why a whole run failed.  No sentinel is set, so the next trigger tries
/// again from scratch.
#[derive(Clone, Copy, Debug, PartialEq, Eq, Structural)]
pub enum TaskError {
    /// The day that decides the window could not be computed.
    WindowUnavailable,
    /// The store could not list the work.
    PersistenceRead,
    /// The store could not bring the derived figures up to date.
    PersistenceWrite,
    /// The cache could not store the sentinel.
    SentinelStore,
    /// An event arrived that answers no action the machine asked for.
    UnexpectedEvent,
}

/// What became of one work item.
pub enum Outcome {
    /// The statement was fetched, found valid and written.
    Success(FinancialStatement),
    SkippedIneligible(Ineligible),
    Failed(ItemError),
}

/// An outcome as plain values.
pub enum OutcomeView {
    Success(StatementView),
    SkippedIneligible(Ineligible),
    Failed(ItemError),
}

impl View for Outcome {
    type V = OutcomeView;

    open spec fn view(&self) -> OutcomeView {
        match self {
            Outcome::Success(statement) => OutcomeView::Success(statement@),
            Outcome::SkippedIneligible(why) => OutcomeView::SkippedIneligible(*why),
            Outcome::Failed(error) => OutcomeView::Failed(*error),
        }
    }
}

/// The outcomes of a list as plain values, in order.
pub open spec fn outcome_views(outcomes: Seq<Outcome>) -> Seq<OutcomeView> {
    outcomes.map_values(|outcome: Outcome| outcome@)
}

/// Whether any of the outcomes is a success.
pub open spec fn has_success(outcomes: Seq<OutcomeView>) -> bool {
    exists|i: int| 0 <= i < outcomes.len() && #[trigger] outcomes[i] is Success
}

/// How many of the outcomes are successes.
pub open spec fn count_successes(outcomes: Seq<OutcomeView>) -> nat
    decreases outcomes.len(),
{
    if outcomes.len() == 0 {
        0
    } else {
        count_successes(outcomes.drop_last()) + if outcomes.last() is Success {
            1nat
        } else {
            0nat
        }
    }
}

/// How many of the outcomes stand for a call of the provider: every item
/// that was not skipped was asked about once.
pub open spec fn count_fetched(outcomes: Seq<OutcomeView>) -> nat
    decreases outcomes.len(),
{
    if outcomes.len() == 0 {
        0
    } else {
        count_fetched(outcomes.drop_last()) + if outcomes.last() is SkippedIneligible {
            0nat
        } else {
            1nat
        }
    }
}

impl Outcome {
    /// A copy of the outcome.
    pub fn duplicate(&self) -> (copy: Outcome)
        ensures
            copy@ == self@,
    {
        match self {
            Outcome::Success(statement) => Outcome::Success(statement.duplicate()),
            Outcome::SkippedIneligible(why) => Outcome::SkippedIneligible(*why),
            Outcome::Failed(error) => Outcome::Failed(*error),
        }
    }

    /// Whether the item was written.
    pub fn is_success(&self) -> (yes: bool)
        ensures
            yes == (self@ is Success),
    {
        match self {
            Outcome::Success(_) => true,
            _ => false,
        }
    }
}

/// What a finished run reports.
pub struct RunReport {
    /// The sentinel was present: nothing was read, fetched or written.
    pub skipped: bool,
    /// One outcome per work item, in the order of the work set.
    pub outcomes: Vec<Outcome>,
    /// The derived figures were brought up to date.
    pub derived_refreshed: bool,
    /// The sentinel was stored.
    pub sentinel_set: bool,
}

/// A report as plain values.
pub struct ReportView {
    pub skipped: bool,
    pub outcomes: Seq<OutcomeView>,
    pub derived_refreshed: bool,
    pub sentinel_set: bool,
}

impl View for RunReport {
    type V = ReportView;

    open spec fn view(&self) -> ReportView {
        ReportView {
            skipped: self.skipped,
            outcomes: outcome_views(self.outcomes@),
            derived_refreshed: self.derived_refreshed,
            sentinel_set: self.sentinel_set,
        }
    }
}

impl ReportView {
    /// How often the store was asked for the work set.
    pub open spec fn persistence_reads(self) -> nat {
        if self.skipped {
            0
        } else {
            1
        }
    }

    /// How often the provider was called.
    pub open spec fn source_calls(self) -> nat {
        count_fetched(self.outcomes)
    }

    /// How many statements were written.
    pub open spec fn upserts(self) -> nat {
        count_successes(self.outcomes)
    }
}

impl RunReport {
    /// How often the store was asked for the work set.
    pub fn persistence_reads(&self) -> (n: usize)
        ensures
            n == self@.persistence_reads(),
    {
        if self.skipped {
            0
        } else {
            1
        }
    }

    /// How often the provider was called.
    pub fn source_calls(&self) -> (n: usize)
        ensures
            n == self@.source_calls(),
    {
        let mut n: usize = 0;
        let mut i: usize = 0;
        assert(outcome_views(self.outcomes@).take(0) =~= Seq::empty());
        while i < self.outcomes.len()
            invariant
                i <= self.outcomes@.len(),
                n <= i,
                n == count_fetched(outcome_views(self.outcomes@).take(i as int)),
            decreases self.outcomes@.len() - i,
        {
            proof {
                let upto = outcome_views(self.outcomes@).take(i as int + 1);
                assert(upto.drop_last() =~= outcome_views(self.outcomes@).take(i as int));
                assert(upto.last() == self.outcomes@[i as int]@);
            }
            match &self.outcomes[i] {
                Outcome::SkippedIneligible(_) => {},
                _ => {
                    n = n + 1;
                },
            }
            i = i + 1;
        }
        assert(outcome_views(self.outcomes@).take(self.outcomes@.len() as int) =~= outcome_views(
            self.outcomes@,
        ));
        n
    }

    /// How many statements were written.
    pub fn upserts(&self) -> (n: usize)
        ensures
            n == self@.upserts(),
    {
        let mut n: usize = 0;
        let mut i: usize = 0;
        assert(outcome_views(self.outcomes@).take(0) =~= Seq::empty());
        while i < self.outcomes.len()
            invariant
                i <= self.outcomes@.len(),
                n <= i,
                n == count_successes(outcome_views(self.outcomes@).take(i as int)),
            decreases self.outcomes@.len() - i,
        {
            proof {
                let upto = outcome_views(self.outcomes@).take(i as int + 1);
                assert(upto.drop_last() =~= outcome_views(self.outcomes@).take(i as int));
                assert(upto.last() == self.outcomes@[i as int]@);
            }
            if self.outcomes[i].is_success() {
                n = n + 1;
            }
            i = i + 1;
        }
        assert(outcome_views(self.outcomes@).take(self.outcomes@.len() as int) =~= outcome_views(
            self.outcomes@,
        ));
        n
    }
}

/// Where a run stands: which answer the machine is waiting for.
#[derive(Clone, Copy, Debug, PartialEq, Eq, Structural)]
pub enum Phase {
    CheckingSentinel,
    ReadingWorkSet,
    Fetching,
    Writing,
    UpdatingNetAssetValue,
    RefreshingDerived,
    StoringSentinel,
    Finished,
}

/// What the machine asks its driver to do.
pub enum Action {
    /// Read the sentinel under [`sentinel_key`].
    CheckSentinel,
    /// Ask the store for the securities without a statement for the window.
    FindMissing(ReportingWindow),
    /// Ask the provider about the security, holding a fetch permit.
    Fetch(String),
    /// Write the statement in full.
    Upsert(FinancialStatement),
    /// Set the net asset value per share of the security.
    UpdateNetAssetValue(String, Amount),
    /// Bring the figures derived from the statements up to date.
    RefreshDerived,
    /// Store `true` under [`sentinel_key`] with this time to live, in seconds.
    StoreSentinel(u64),
    /// Stop: the run is over.
    Finish(Result<RunReport, TaskError>),
}

/// How an action ended.  `None` and `false` stand for failure.
pub enum Event {
    SentinelRead(Option<bool>),
    WorkSet(Option<Vec<Stock>>),
    Fetched(Option<Profile>),
    Upserted(bool),
    NetAssetValueUpdated(bool),
    DerivedRefreshed(bool),
    SentinelStored(bool),
}

/// An action as plain values.
pub enum ActionView {
    CheckSentinel,
    FindMissing(ReportingWindow),
    Fetch(Seq<char>),
    Upsert(StatementView),
    UpdateNetAssetValue(Seq<char>, Amount),
    RefreshDerived,
    StoreSentinel(u64),
    Finish(Result<ReportView, TaskError>),
}

/// An event as plain values.
pub enum EventView {
    SentinelRead(Option<bool>),
    WorkSet(Option<Seq<StockView>>),
    Fetched(Option<ProfileView>),
    Upserted(bool),
    NetAssetValueUpdated(bool),
    DerivedRefreshed(bool),
    SentinelStored(bool),
}

impl View for Action {
    type V = ActionView;

    open spec fn view(&self) -> ActionView {
        match self {
            Action::CheckSentinel => ActionView::CheckSentinel,
            Action::FindMissing(window) => ActionView::FindMissing(*window),
            Action::Fetch(symbol) => ActionView::Fetch(symbol@),
            Action::Upsert(statement) => ActionView::Upsert(statement@),
            Action::UpdateNetAssetValue(symbol, value) => ActionView::UpdateNetAssetValue(
                symbol@,
                *value,
            ),
            Action::RefreshDerived => ActionView::RefreshDerived,
            Action::StoreSentinel(ttl) => ActionView::StoreSentinel(*ttl),
            Action::Finish(result) => ActionView::Finish(
                match result {
                    Ok(report) => Ok(report@),
                    Err(error) => Err(*error),
                },
            ),
        }
    }
}

impl View for Event {
    type V = EventView;

    open spec fn view(&self) -> EventView {
        match self {
            Event::SentinelRead(reading) => EventView::SentinelRead(*reading),
            Event::WorkSet(items) => EventView::WorkSet(
                match items {
                    Some(list) => Some(stock_views(list@)),
                    None => None,
                },
            ),
            Event::Fetched(profile) => EventView::Fetched(
                match profile {
                    Some(p) => Some(p@),
                    None => None,
                },
            ),
            Event::Upserted(ok) => EventView::Upserted(*ok),
            Event::NetAssetValueUpdated(ok) => EventView::NetAssetValueUpdated(*ok),
            Event::DerivedRefreshed(ok) => EventView::DerivedRefreshed(*ok),
            Event::SentinelStored(ok) => EventView::SentinelStored(*ok),
        }
    }
}

/// Whether a provider's record is for the window that was asked for.
pub open spec fn matches_window(record: ProfileView, window: ReportingWindow) -> bool {
    record.year == window.year && record.quarter == quarter_label(window.quarter)
}

/// Whether writing the statement of an item calls for a second write: the
/// security has no net asset value on file and the statement brings one.
pub open spec fn brings_net_asset_value(item: StockView, statement: StatementView) -> bool {
    item.net_asset_value_per_share.is_zero_spec()
        && !statement.net_asset_value_per_share.is_zero_spec()
}

/// The state of a run as plain values.
pub struct TaskView {
    pub phase: Phase,
    /// The window of the run; `None` where it could not be computed.
    pub window: Option<ReportingWindow>,
    /// The moment the run takes its records in.
    pub now: Millis,
    pub items: Seq<StockView>,
    /// How many items are done.
    pub cursor: int,
    pub outcomes: Seq<OutcomeView>,
    /// The statement that is being written.
    pub pending: Option<StatementView>,
    pub skipped: bool,
    pub derived_refreshed: bool,
    pub sentinel_set: bool,
    pub failure: Option<TaskError>,
}

impl TaskView {
    /// A run that has not done anything yet.
    pub open spec fn initial(window: Option<ReportingWindow>, now: Millis) -> TaskView {
        TaskView {
            phase: Phase::CheckingSentinel,
            window,
            now,
            items: Seq::empty(),
            cursor: 0,
            outcomes: Seq::empty(),
            pending: None,
            skipped: false,
            derived_refreshed: false,
            sentinel_set: false,
            failure: None,
        }
    }

    /// What the run reports.
    pub open spec fn report(self) -> ReportView {
        ReportView {
            skipped: self.skipped,
            outcomes: self.outcomes,
            derived_refreshed: self.derived_refreshed,
            sentinel_set: self.sentinel_set,
        }
    }

    /// How the run ends.
    pub open spec fn result(self) -> Result<ReportView, TaskError> {
        match self.failure {
            Some(error) => Err(error),
            None => Ok(self.report()),
        }
    }

    /// The item that is being worked on.
    pub open spec fn current(self) -> Option<StockView> {
        if 0 <= self.cursor < self.items.len() {
            Some(self.items[self.cursor])
        } else {
            None
        }
    }

    /// The run, over with a failure.
    pub open spec fn failed(self, error: TaskError) -> TaskView {
        TaskView { phase: Phase::Finished, failure: Some(error), pending: None, ..self }
    }

    /// The run after the current item got its outcome: the next item that
    /// is eligible is fetched, and when none is left the run winds up.
    pub open spec fn concluded(self, outcome: OutcomeView) -> TaskView {
        (TaskView {
            outcomes: self.outcomes.push(outcome),
            cursor: self.cursor + 1,
            pending: None,
            ..self
        }).settled()
    }

    /// The run with every ineligible item from the cursor on skipped: it
    /// either fetches the first eligible item or, with none left, winds up.
    pub open spec fn settled(self) -> TaskView
        decreases self.items.len() - self.cursor,
    {
        if 0 <= self.cursor < self.items.len() {
            if self.items[self.cursor].preference_shares {
                (TaskView {
                    outcomes: self.outcomes.push(
                        OutcomeView::SkippedIneligible(Ineligible::PreferenceShares),
                    ),
                    cursor: self.cursor + 1,
                    ..self
                }).settled()
            } else {
                TaskView { phase: Phase::Fetching, ..self }
            }
        } else if has_success(self.outcomes) {
            TaskView { phase: Phase::RefreshingDerived, ..self }
        } else {
            TaskView { phase: Phase::StoringSentinel, ..self }
        }
    }

    /// What the machine asks for in this state.
    pub open spec fn asks(self) -> ActionView {
        match self.phase {
            Phase::CheckingSentinel => ActionView::CheckSentinel,
            Phase::ReadingWorkSet => match self.window {
                Some(window) => ActionView::FindMissing(window),
                None => ActionView::Finish(Err(TaskError::WindowUnavailable)),
            },
            Phase::Fetching => match self.current() {
                Some(item) => ActionView::Fetch(item.stock_symbol),
                None => ActionView::Finish(Err(TaskError::UnexpectedEvent)),
            },
            Phase::Writing => match self.pending {
                Some(statement) => ActionView::Upsert(statement),
                None => ActionView::Finish(Err(TaskError::UnexpectedEvent)),
            },
            Phase::UpdatingNetAssetValue => match (self.current(), self.pending) {
                (Some(item), Some(statement)) => ActionView::UpdateNetAssetValue(
                    item.stock_symbol,
                    statement.net_asset_value_per_share,
                ),
                _ => ActionView::Finish(Err(TaskError::UnexpectedEvent)),
            },
            Phase::RefreshingDerived => ActionView::RefreshDerived,
            Phase::StoringSentinel => ActionView::StoreSentinel(SENTINEL_TTL_SECONDS),
            Phase::Finished => ActionView::Finish(self.result()),
        }
    }

    /// The state after an event.  An event that answers no action the
    /// machine asked for ends the run with [`TaskError::UnexpectedEvent`];
    /// a finished run stays as it is.
    pub open spec fn absorb(self, event: EventView) -> TaskView {
        match (self.phase, event) {
            (Phase::Finished, _) => self,
            (Phase::CheckingSentinel, EventView::SentinelRead(reading)) => {
                if reading_means_done(reading) {
                    TaskView { phase: Phase::Finished, skipped: true, ..self }
                } else if self.window is None {
                    self.failed(TaskError::WindowUnavailable)
                } else {
                    TaskView { phase: Phase::ReadingWorkSet, ..self }
                }
            },
            (Phase::ReadingWorkSet, EventView::WorkSet(None)) => self.failed(
                TaskError::PersistenceRead,
            ),
            (Phase::ReadingWorkSet, EventView::WorkSet(Some(items))) => (TaskView {
                items,
                cursor: 0,
                outcomes: Seq::empty(),
                ..self
            }).settled(),
            (Phase::Fetching, EventView::Fetched(answer)) => match (self.current(), answer) {
                (None, _) => self.failed(TaskError::UnexpectedEvent),
                (Some(_), None) => self.concluded(OutcomeView::Failed(ItemError::TransientFetch)),
                (Some(_), Some(record)) => {
                    if self.window is Some && matches_window(record, self.window->0) {
                        TaskView {
                            phase: Phase::Writing,
                            pending: Some(StatementView::of_record(record, self.now)),
                            ..self
                        }
                    } else {
                        self.concluded(OutcomeView::Failed(ItemError::ValidationMismatch))
                    }
                },
            },
            (Phase::Writing, EventView::Upserted(ok)) => match (self.current(), self.pending) {
                (Some(item), Some(statement)) => {
                    if !ok {
                        self.concluded(OutcomeView::Failed(ItemError::PersistenceWrite))
                    } else if brings_net_asset_value(item, statement) {
                        TaskView { phase: Phase::UpdatingNetAssetValue, ..self }
                    } else {
                        self.concluded(OutcomeView::Success(statement))
                    }
                },
                _ => self.failed(TaskError::UnexpectedEvent),
            },
            (Phase::UpdatingNetAssetValue, EventView::NetAssetValueUpdated(_)) => match (
                self.current(),
                self.pending,
            ) {
                (Some(_), Some(statement)) => self.concluded(OutcomeView::Success(statement)),
                _ => self.failed(TaskError::UnexpectedEvent),
            },
            (Phase::RefreshingDerived, EventView::DerivedRefreshed(ok)) => {
                if ok {
                    TaskView { phase: Phase::StoringSentinel, derived_refreshed: true, ..self }
                } else {
                    self.failed(TaskError::PersistenceWrite)
                }
            },
            (Phase::StoringSentinel, EventView::SentinelStored(ok)) => {
                if ok {
                    TaskView { phase: Phase::Finished, sentinel_set: true, ..self }
                } else {
                    self.failed(TaskError::SentinelStore)
                }
            },
            _ => self.failed(TaskError::UnexpectedEvent),
        }
    }
}

/// The machine that runs one backfill of quarterly statements.
pub struct BackfillTask {
    phase: Phase,
    window: Option<ReportingWindow>,
    now: Millis,
    items: Vec<Stock>,
    cursor: usize,
    outcomes: Vec<Outcome>,
    pending: Option<FinancialStatement>,
    skipped: bool,
    derived_refreshed: bool,
    sentinel_set: bool,
    failure: Option<TaskError>,
}

impl View for BackfillTask {
    type V = TaskView;

    closed spec fn view(&self) -> TaskView {
        TaskView {
            phase: self.phase,
            window: self.window,
            now: self.now,
            items: stock_views(self.items@),
            cursor: self.cursor as int,
            outcomes: outcome_views(self.outcomes@),
            pending: match self.pending {
                Some(statement) => Some(statement@),
                None => None,
            },
            skipped: self.skipped,
            derived_refreshed: self.derived_refreshed,
            sentinel_set: self.sentinel_set,
            failure: self.failure,
        }
    }
}

/// Whether any of the outcomes is a success.
fn any_success(outcomes: &Vec<Outcome>) -> (found: bool)
    ensures
        found == has_success(outcome_views(outcomes@)),
{
    let mut i: usize = 0;
    while i < outcomes.len()
        invariant
            i <= outcomes@.len(),
            forall|j: int| 0 <= j < i ==> !(#[trigger] outcome_views(outcomes@)[j] is Success),
        decreases outcomes@.len() - i,
    {
        if outcomes[i].is_success() {
            assert(outcome_views(outcomes@)[i as int] is Success);
            return true;
        }
        i = i + 1;
    }
    false
}

/// Whether a provider's record is for the window that was asked for.
pub fn record_matches_window(record: &Profile, window: &ReportingWindow) -> (same: bool)
    ensures
        same == matches_window(record@, *window),
{
    let label = window.quarter.label();
    record.year == window.year && record.quarter == label
}

impl BackfillTask {
    /// A run for the window, which takes its records in at the moment
    /// `now`.  `window` is `None` where the day that decides it could not be
    /// computed: such a run fails unless the sentinel says it is not needed.
    pub fn new(window: Option<ReportingWindow>, now: Millis) -> (task: BackfillTask)
        ensures
            task@ == TaskView::initial(window, now),
    {
        let task = BackfillTask {
            phase: Phase::CheckingSentinel,
            window,
            now,
            items: Vec::new(),
            cursor: 0,
            outcomes: Vec::new(),
            pending: None,
            skipped: false,
            derived_refreshed: false,
            sentinel_set: false,
            failure: None,
        };
        assert(task@.items =~= Seq::empty());
        assert(task@.outcomes =~= Seq::empty());
        task
    }

    /// Where the run stands.
    pub fn phase(&self) -> (phase: Phase)
        ensures
            phase == self@.phase,
    {
        self.phase
    }

    /// Whether the run is over.
    pub fn is_finished(&self) -> (over: bool)
        ensures
            over == (self@.phase == Phase::Finished),
    {
        match self.phase {
            Phase::Finished => true,
            _ => false,
        }
    }

    /// What the run reports.
    fn report(&self) -> (report: RunReport)
        ensures
            report@ == self@.report(),
    {
        let mut outcomes: Vec<Outcome> = Vec::new();
        let mut i: usize = 0;
        while i < self.outcomes.len()
            invariant
                i <= self.outcomes@.len(),
                outcomes@.len() == i,
                forall|j: int| 0 <= j < i ==> (#[trigger] outcomes@[j])@ == self.outcomes@[j]@,
            decreases self.outcomes@.len() - i,
        {
            outcomes.push(self.outcomes[i].duplicate());
            i = i + 1;
        }
        assert(outcome_views(outcomes@) =~= outcome_views(self.outcomes@));
        RunReport {
            skipped: self.skipped,
            outcomes,
            derived_refreshed: self.derived_refreshed,
            sentinel_set: self.sentinel_set,
        }
    }

    /// The action the machine is waiting on.  Asking again changes nothing.
    pub fn pending_action(&self) -> (action: Action)
        ensures
            action@ == self@.asks(),
    {
        match self.phase {
            Phase::CheckingSentinel => Action::CheckSentinel,
            Phase::ReadingWorkSet => match self.window {
                Some(window) => Action::FindMissing(window),
                None => Action::Finish(Err(TaskError::WindowUnavailable)),
            },
            Phase::Fetching => {
                if self.cursor < self.items.len() {
                    Action::Fetch(self.items[self.cursor].stock_symbol.clone())
                } else {
                    Action::Finish(Err(TaskError::UnexpectedEvent))
                }
            },
            Phase::Writing => match &self.pending {
                Some(statement) => Action::Upsert(statement.duplicate()),
                None => Action::Finish(Err(TaskError::UnexpectedEvent)),
            },
            Phase::UpdatingNetAssetValue => {
                if self.cursor < self.items.len() {
                    match &self.pending {
                        Some(statement) => Action::UpdateNetAssetValue(
                            self.items[self.cursor].stock_symbol.clone(),
                            statement.net_asset_value_per_share,
                        ),
                        None => Action::Finish(Err(TaskError::UnexpectedEvent)),
                    }
                } else {
                    Action::Finish(Err(TaskError::UnexpectedEvent))
                }
            },
            Phase::RefreshingDerived => Action::RefreshDerived,
            Phase::StoringSentinel => Action::StoreSentinel(SENTINEL_TTL_SECONDS),
            Phase::Finished => match self.failure {
                Some(error) => Action::Finish(Err(error)),
                None => Action::Finish(Ok(self.report())),
            },
        }
    }

    /// Ends the run with a failure.
    fn fail(&mut self, error: TaskError)
        ensures
            final(self)@ == old(self)@.failed(error),
    {
        self.phase = Phase::Finished;
        self.failure = Some(error);
        self.pending = None;
    }

    /// Skips every ineligible item from the cursor on.
    fn settle(&mut self)
        ensures
            final(self)@ == old(self)@.settled(),
    {
        while self.cursor < self.items.len() && self.items[self.cursor].preference_shares
            invariant
                self@.settled() == old(self)@.settled(),
            decreases self.items@.len() - self.cursor,
        {
            let ghost before = self@;
            self.outcomes.push(Outcome::SkippedIneligible(Ineligible::PreferenceShares));
            self.cursor = self.cursor + 1;
            proof {
                assert(self@.outcomes =~= before.outcomes.push(
                    OutcomeView::SkippedIneligible(Ineligible::PreferenceShares),
                ));
            }
        }
        if self.cursor < self.items.len() {
            self.phase = Phase::Fetching;
        } else if any_success(&self.outcomes) {
            self.phase = Phase::RefreshingDerived;
        } else {
            self.phase = Phase::StoringSentinel;
        }
    }

    /// Gives the current item its outcome and moves on.
    fn conclude(&mut self, outcome: Outcome)
        requires
            old(self)@.current() is Some,
        ensures
            final(self)@ == old(self)@.concluded(outcome@),
    {
        let ghost before = self@;
        let listed: usize = self.items.len();
        assert(self.cursor < listed);
        self.outcomes.push(outcome);
        self.cursor = self.cursor + 1;
        self.pending = None;
        proof {
            assert(self@.outcomes =~= before.outcomes.push(outcome@));
        }
        self.settle();
    }

    /// Tells the machine how the action it asked for ended, and learns what
    /// to do next.
    pub fn step(&mut self, event: Event) -> (action: Action)
        ensures
            final(self)@ == old(self)@.absorb(event@),
            action@ == final(self)@.asks(),
    {
        let has_item = self.cursor < self.items.len();
        match (self.phase, event) {
            (Phase::Finished, _) => {},
            (Phase::CheckingSentinel, Event::SentinelRead(reading)) => {
                if reading_says_done(reading) {
                    self.phase = Phase::Finished;
                    self.skipped = true;
                } else if self.window.is_none() {
                    self.fail(TaskError::WindowUnavailable);
                } else {
                    self.phase = Phase::ReadingWorkSet;
                }
            },
            (Phase::ReadingWorkSet, Event::WorkSet(None)) => {
                self.fail(TaskError::PersistenceRead);
            },
            (Phase::ReadingWorkSet, Event::WorkSet(Some(items))) => {
                self.items = items;
                self.cursor = 0;
                self.outcomes = Vec::new();
                proof {
                    assert(self@.outcomes =~= Seq::empty());
                }
                self.settle();
            },
            (Phase::Fetching, Event::Fetched(answer)) => {
                if !has_item {
                    self.fail(TaskError::UnexpectedEvent);
                } else {
                    match answer {
                        None => {
                            self.conclude(Outcome::Failed(ItemError::TransientFetch));
                        },
                        Some(record) => {
                            let valid = match &self.window {
                                Some(window) => record_matches_window(&record, window),
                                None => false,
                            };
                            if valid {
                                self.pending = Some(
                                    FinancialStatement::from_profile(record, self.now),
                                );
                                self.phase = Phase::Writing;
                            } else {
                                self.conclude(Outcome::Failed(ItemError::ValidationMismatch));
                            }
                        },
                    }
                }
            },
            (Phase::Writing, Event::Upserted(ok)) => {
                let mut pending: Option<FinancialStatement> = None;
                core::mem::swap(&mut self.pending, &mut pending);
                match pending {
                    Some(statement) => {
                        if !has_item {
                            self.fail(TaskError::UnexpectedEvent);
                        } else if !ok {
                            self.conclude(Outcome::Failed(ItemError::PersistenceWrite));
                        } else if self.items[self.cursor].net_asset_value_per_share.is_zero()
                            && !statement.net_asset_value_per_share.is_zero() {
                            self.pending = Some(statement);
                            self.phase = Phase::UpdatingNetAssetValue;
                        } else {
                            self.conclude(Outcome::Success(statement));
                        }
                    },
                    None => {
                        self.fail(TaskError::UnexpectedEvent);
                    },
                }
            },
            (Phase::UpdatingNetAssetValue, Event::NetAssetValueUpdated(_)) => {
                let mut pending: Option<FinancialStatement> = None;
                core::mem::swap(&mut self.pending, &mut pending);
                match pending {
                    Some(statement) => {
                        if !has_item {
                            self.fail(TaskError::UnexpectedEvent);
                        } else {
                            self.conclude(Outcome::Success(statement));
                        }
                    },
                    None => {
                        self.fail(TaskError::UnexpectedEvent);
                    },
                }
            },
            (Phase::RefreshingDerived, Event::DerivedRefreshed(ok)) => {
                if ok {
                    self.phase = Phase::StoringSentinel;
                    self.derived_refreshed = true;
                } else {
                    self.fail(TaskError::PersistenceWrite);
                }
            },
            (Phase::StoringSentinel, Event::SentinelStored(ok)) => {
                if ok {
                    self.phase = Phase::Finished;
                    self.sentinel_set = true;
                } else {
                    self.fail(TaskError::SentinelStore);
                }
            },
            _ => {
                self.fail(TaskError::UnexpectedEvent);
            },
        }
        self.pending_action()
    }
}

} // verus!
