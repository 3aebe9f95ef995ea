//! The scheduler: which tasks run at which wall-clock triggers.
//!
//! A scheduler is set up with its triggers, started once and stopped once.
//! Firing is the caller's business; the scheduler says which tasks a
//! trigger is bound to and keeps the tasks of one firing apart, so that a
//! task that fails neither cancels nor delays another.

use vstd::prelude::*;

verus! {

/// A job the scheduler can be asked to run.
#[derive(Clone, Copy, Debug, PartialEq, Eq, Structural)]
pub enum Task {
    FinancialStatementQuarter,
    NetAssetValueEmerging,
    NetAssetValueZeroValue,
    FinancialStatementAnnual,
    Revenue,
    InternationalSecuritiesIdentificationNumber,
    DelistedCompany,
    StockWeight,
    ExDividendReminder,
    TaiwanCapitalizationWeightedStockIndex,
    Quotes,
    Dividend,
    FreeDnsUpdate,
}

/// The name under which the start and the end of a task are logged; `None`
/// for a task that runs unlogged.
pub open spec fn task_log_name(task: Task) -> Option<Seq<char>> {
    match task {
        Task::FinancialStatementQuarter => Some(
            "backfill::financial_statement::quarter::execute"@,
        ),
        Task::NetAssetValueEmerging => Some(
            "backfill::net_asset_value_per_share::emerging::execute"@,
        ),
        Task::NetAssetValueZeroValue => Some(
            "backfill::net_asset_value_per_share::zero_value::execute"@,
        ),
        Task::FinancialStatementAnnual => Some("backfill::financial_statement::annual::execute"@),
        Task::Revenue => Some("backfill::revenue::execute"@),
        Task::InternationalSecuritiesIdentificationNumber => Some(
            "backfill::international_securities_identification_number::execute"@,
        ),
        Task::DelistedCompany => Some("backfill::delisted_company::execute"@),
        Task::StockWeight => Some("backfill::stock_weight::execute"@),
        Task::ExDividendReminder => None,
        Task::TaiwanCapitalizationWeightedStockIndex => Some(
            "backfill::taiwan_capitalization_weighted_stock_index::execute"@,
        ),
        Task::Quotes => Some("backfill::quotes::execute"@),
        Task::Dividend => Some("backfill::dividend::execute"@),
        Task::FreeDnsUpdate => None,
    }
}

impl Task {
    /// The name under which the start and the end of the task are logged.
    pub fn log_name(&self) -> (name: Option<&'static str>)
        ensures
            name is Some <==> task_log_name(*self) is Some,
            name matches Some(text) ==> text@ == task_log_name(*self)->0,
    {
        match self {
            Task::FinancialStatementQuarter => Some(
                "backfill::financial_statement::quarter::execute",
            ),
            Task::NetAssetValueEmerging => Some(
                "backfill::net_asset_value_per_share::emerging::execute",
            ),
            Task::NetAssetValueZeroValue => Some(
                "backfill::net_asset_value_per_share::zero_value::execute",
            ),
            Task::FinancialStatementAnnual => Some(
                "backfill::financial_statement::annual::execute",
            ),
            Task::Revenue => Some("backfill::revenue::execute"),
            Task::InternationalSecuritiesIdentificationNumber => Some(
                "backfill::international_securities_identification_number::execute",
            ),
            Task::DelistedCompany => Some("backfill::delisted_company::execute"),
            Task::StockWeight => Some("backfill::stock_weight::execute"),
            Task::ExDividendReminder => None,
            Task::TaiwanCapitalizationWeightedStockIndex => Some(
                "backfill::taiwan_capitalization_weighted_stock_index::execute",
            ),
            Task::Quotes => Some("backfill::quotes::execute"),
            Task::Dividend => Some("backfill::dividend::execute"),
            Task::FreeDnsUpdate => None,
        }
    }
}

/// A wall-clock trigger and the tasks bound to it, in the order in which
/// they run.  The expression has six fields: seconds, minutes, hours, day
/// of month, month, day of week; it is read in UTC.
pub struct Trigger {
    pub expression: String,
    pub tasks: Vec<Task>,
}

/// A trigger as plain values.
pub struct TriggerView {
    pub expression: Seq<char>,
    pub tasks: Seq<Task>,
}

impl View for Trigger {
    type V = TriggerView;

    open spec fn view(&self) -> TriggerView {
        TriggerView { expression: self.expression@, tasks: self.tasks@ }
    }
}

/// The triggers of a list as plain values, in order.
pub open spec fn trigger_views(triggers: Seq<Trigger>) -> Seq<TriggerView> {
    triggers.map_values(|trigger: Trigger| trigger@)
}

impl Trigger {
    /// Binds tasks to an expression.
    pub fn new(expression: &str, tasks: Vec<Task>) -> (trigger: Trigger)
        ensures
            trigger@ == (TriggerView { expression: expression@, tasks: tasks@ }),
    {
        Trigger { expression: String::from_str(expression), tasks }
    }

    /// A copy of the trigger.
    pub fn duplicate(&self) -> (copy: Trigger)
        ensures
            copy@ == self@,
    {
        Trigger { expression: self.expression.clone(), tasks: self.tasks.clone() }
    }
}

/// The timetable of the crawler.  All times are UTC; Taipei is eight hours
/// ahead.
pub open spec fn timetable_view() -> Seq<TriggerView> {
    seq![
        TriggerView {
            expression: "0 0 17 * * *"@,
            tasks: seq![Task::FinancialStatementQuarter, Task::NetAssetValueEmerging],
        },
        TriggerView {
            expression: "0 0 19 * * *"@,
            tasks: seq![Task::NetAssetValueZeroValue, Task::FinancialStatementAnnual],
        },
        TriggerView {
            expression: "0 0 21 * * *"@,
            tasks: seq![
                Task::Revenue,
                Task::InternationalSecuritiesIdentificationNumber,
                Task::DelistedCompany,
                Task::StockWeight,
            ],
        },
        TriggerView { expression: "0 0 0 * * *"@, tasks: seq![Task::ExDividendReminder] },
        TriggerView {
            expression: "0 0 7 * * *"@,
            tasks: seq![Task::TaiwanCapitalizationWeightedStockIndex],
        },
        TriggerView { expression: "0 1 7 * * *"@, tasks: seq![Task::Quotes] },
        TriggerView { expression: "0 0 13 * * *"@, tasks: seq![Task::Dividend] },
        TriggerView { expression: "0 * * * * *"@, tasks: seq![Task::FreeDnsUpdate] },
    ]
}

/// Builds the timetable of the crawler.
pub fn timetable() -> (table: Vec<Trigger>)
    ensures
        trigger_views(table@) == timetable_view(),
{
    let mut table: Vec<Trigger> = Vec::new();
    table.push(
        Trigger::new(
            "0 0 17 * * *",
            vec![Task::FinancialStatementQuarter, Task::NetAssetValueEmerging],
        ),
    );
    table.push(
        Trigger::new(
            "0 0 19 * * *",
            vec![Task::NetAssetValueZeroValue, Task::FinancialStatementAnnual],
        ),
    );
    table.push(
        Trigger::new(
            "0 0 21 * * *",
            vec![
                Task::Revenue,
                Task::InternationalSecuritiesIdentificationNumber,
                Task::DelistedCompany,
                Task::StockWeight,
            ],
        ),
    );
    table.push(Trigger::new("0 0 0 * * *", vec![Task::ExDividendReminder]));
    table.push(Trigger::new("0 0 7 * * *", vec![Task::TaiwanCapitalizationWeightedStockIndex]));
    table.push(Trigger::new("0 1 7 * * *", vec![Task::Quotes]));
    table.push(Trigger::new("0 0 13 * * *", vec![Task::Dividend]));
    table.push(Trigger::new("0 * * * * *", vec![Task::FreeDnsUpdate]));
    proof {
        let views = trigger_views(table@);
        let wanted = timetable_view();
        assert(views.len() == wanted.len());
        assert forall|i: int| 0 <= i < views.len() implies views[i] == wanted[i] by {
            assert(views[i].tasks =~= wanted[i].tasks);
        }
        assert(views =~= wanted);
    }
    table
}

/// Where a scheduler stands.  It only ever moves forward.
#[derive(Clone, Copy, Debug, PartialEq, Eq, Structural)]
pub enum SchedulerState {
    /// Triggers are being added; nothing fires yet.
    Registered,
    /// The triggers fire.
    Running,
    /// The process is shutting down; nothing fires any more.
    Stopped,
}

/// Why a schedule was refused.  The process should not start with it.
#[derive(Clone, Copy, Debug, PartialEq, Eq, Structural)]
pub enum SchedulerConfigError {
    /// The expression of a trigger is no valid cron expression.
    InvalidExpression,
    /// A trigger with the same expression is registered already.
    DuplicateTrigger,
    /// The scheduler was started already: its triggers are fixed.
    AlreadyStarted,
}

/// Whether the scheduling library accepts the text as the expression of a
/// job.
pub uninterp spec fn cron_expression_accepted(expression: Seq<char>) -> bool;

/// `tokio_cron_scheduler::Job::new`: builds a job from an expression and a
/// closure, and fails where the expression does not parse; `Job::new_async`
/// reads the expression in the same way.  Trusted: whether it succeeds
/// depends on the expression alone.
#[verifier::external_body]
fn job_can_be_built(expression: &str) -> (accepted: bool)
    ensures
        accepted == cron_expression_accepted(expression@),
{
    tokio_cron_scheduler::Job::new(expression, |_id, _scheduler| {}).is_ok()
}

/// The scheduler.
pub struct Scheduler {
    state: SchedulerState,
    triggers: Vec<Trigger>,
}

/// A scheduler as plain values.
pub struct SchedulerView {
    pub state: SchedulerState,
    pub triggers: Seq<TriggerView>,
}

impl SchedulerView {
    /// Whether a trigger with the expression is registered.
    pub open spec fn has_trigger(self, expression: Seq<char>) -> bool {
        exists|i: int| 0 <= i < self.triggers.len() && #[trigger] self.triggers[i].expression == expression
    }

    /// What registering a trigger answers, given whether the expression is
    /// a valid one.
    pub open spec fn register_result(self, expression: Seq<char>, accepted: bool) -> Result<
        (),
        SchedulerConfigError,
    > {
        if self.state != SchedulerState::Registered {
            Err(SchedulerConfigError::AlreadyStarted)
        } else if !accepted {
            Err(SchedulerConfigError::InvalidExpression)
        } else if self.has_trigger(expression) {
            Err(SchedulerConfigError::DuplicateTrigger)
        } else {
            Ok(())
        }
    }

    /// The scheduler after a trigger was offered: it is added where it is
    /// accepted, and nothing changes where it is refused.
    pub open spec fn registered(self, trigger: TriggerView, accepted: bool) -> SchedulerView {
        if self.register_result(trigger.expression, accepted) is Ok {
            SchedulerView { triggers: self.triggers.push(trigger), ..self }
        } else {
            self
        }
    }

    /// The tasks that a firing of the expression starts: those of the
    /// trigger while the scheduler runs, none otherwise.
    pub open spec fn fired(self, expression: Seq<char>) -> Seq<Task> {
        if self.state == SchedulerState::Running && self.has_trigger(expression) {
            self.triggers[choose|i: int|
                0 <= i < self.triggers.len() && #[trigger] self.triggers[i].expression
                    == expression].tasks
        } else {
            Seq::empty()
        }
    }

    /// No two triggers have the same expression.
    pub open spec fn distinct(self) -> bool {
        forall|i: int, j: int|
            0 <= i < self.triggers.len() && 0 <= j < self.triggers.len() && i != j ==> (
            #[trigger] self.triggers[i]).expression != (#[trigger] self.triggers[j]).expression
    }
}

impl View for Scheduler {
    type V = SchedulerView;

    closed spec fn view(&self) -> SchedulerView {
        SchedulerView { state: self.state, triggers: trigger_views(self.triggers@) }
    }
}

impl Scheduler {
    #[verifier::type_invariant]
    spec fn one_trigger_per_expression(&self) -> bool {
        self@.distinct()
    }

    /// A scheduler with no triggers, not started.
    pub fn new() -> (scheduler: Scheduler)
        ensures
            scheduler@ == (SchedulerView {
                state: SchedulerState::Registered,
                triggers: Seq::empty(),
            }),
    {
        let scheduler = Scheduler { state: SchedulerState::Registered, triggers: Vec::new() };
        assert(trigger_views(scheduler.triggers@) =~= Seq::empty());
        scheduler
    }

    /// Where the scheduler stands.
    pub fn state(&self) -> (state: SchedulerState)
        ensures
            state == self@.state,
            self@.distinct(),
    {
        proof {
            use_type_invariant(self);
        }
        self.state
    }

    /// How many triggers are registered.
    pub fn len(&self) -> (n: usize)
        ensures
            n == self@.triggers.len(),
    {
        self.triggers.len()
    }

    /// The place of the trigger with the expression.
    fn find(&self, expression: &String) -> (place: Option<usize>)
        ensures
            place is Some <==> self@.has_trigger(expression@),
            place matches Some(i) ==> i < self.triggers@.len() && self.triggers@[i as int].expression@
                == expression@,
    {
        let mut i: usize = 0;
        while i < self.triggers.len()
            invariant
                i <= self.triggers@.len(),
                forall|j: int| 0 <= j < i ==> self.triggers@[j].expression@ != expression@,
            decreases self.triggers@.len() - i,
        {
            if self.triggers[i].expression == *expression {
                assert(self@.triggers[i as int].expression == expression@);
                return Some(i);
            }
            i = i + 1;
        }
        assert forall|j: int| 0 <= j < self@.triggers.len() implies (
        #[trigger] self@.triggers[j]).expression != expression@ by {
            assert(self@.triggers[j] == self.triggers@[j]@);
        }
        None
    }

    /// Adds a trigger of which it is known whether the scheduling library
    /// accepts its expression.
    pub fn register_checked(&mut self, trigger: Trigger, accepted: bool) -> (result: Result<
        (),
        SchedulerConfigError,
    >)
        ensures
            result == old(self)@.register_result(trigger@.expression, accepted),
            final(self)@ == old(self)@.registered(trigger@, accepted),
    {
        proof {
            use_type_invariant(&*self);
        }
        match self.state {
            SchedulerState::Registered => {},
            _ => {
                return Err(SchedulerConfigError::AlreadyStarted);
            },
        }
        if !accepted {
            return Err(SchedulerConfigError::InvalidExpression);
        }
        if self.find(&trigger.expression).is_some() {
            return Err(SchedulerConfigError::DuplicateTrigger);
        }
        let ghost before = self@;
        let mut triggers: Vec<Trigger> = Vec::new();
        core::mem::swap(&mut self.triggers, &mut triggers);
        proof {
            assert(trigger_views(self.triggers@) =~= Seq::empty());
        }
        triggers.push(trigger);
        proof {
            let after = trigger_views(triggers@);
            assert(after =~= before.triggers.push(trigger@));
            assert forall|i: int, j: int|
                0 <= i < after.len() && 0 <= j < after.len() && i != j implies (
            #[trigger] after[i]).expression != (#[trigger] after[j]).expression by {
                if i < before.triggers.len() {
                    assert(after[i] == before.triggers[i]);
                }
                if j < before.triggers.len() {
                    assert(after[j] == before.triggers[j]);
                }
            }
        }
        core::mem::swap(&mut self.triggers, &mut triggers);
        Ok(())
    }

    /// Adds a trigger.  Fails, and changes nothing, where the scheduler was
    /// started already, where the expression is refused by the scheduling
    /// library, or where a trigger with the expression is there already.
    pub fn register(&mut self, expression: &str, tasks: Vec<Task>) -> (result: Result<
        (),
        SchedulerConfigError,
    >)
        ensures
            result == old(self)@.register_result(
                expression@,
                cron_expression_accepted(expression@),
            ),
            final(self)@ == old(self)@.registered(
                TriggerView { expression: expression@, tasks: tasks@ },
                cron_expression_accepted(expression@),
            ),
    {
        let accepted = job_can_be_built(expression);
        self.register_checked(Trigger::new(expression, tasks), accepted)
    }

    /// Starts the scheduler.  Returns whether it started: a scheduler
    /// starts once, and a stopped one stays stopped.
    pub fn start(&mut self) -> (started: bool)
        ensures
            started == (old(self)@.state == SchedulerState::Registered),
            final(self)@ == if started {
                SchedulerView { state: SchedulerState::Running, ..old(self)@ }
            } else {
                old(self)@
            },
    {
        proof {
            use_type_invariant(&*self);
        }
        match self.state {
            SchedulerState::Registered => {
                self.state = SchedulerState::Running;
                true
            },
            _ => false,
        }
    }

    /// Stops the scheduler for good.
    pub fn stop(&mut self)
        ensures
            final(self)@ == (SchedulerView { state: SchedulerState::Stopped, ..old(self)@ }),
    {
        proof {
            use_type_invariant(&*self);
        }
        self.state = SchedulerState::Stopped;
    }

    /// The tasks that a firing of the expression starts, in order: those
    /// bound to the trigger while the scheduler runs, none otherwise.
    pub fn fire(&self, expression: &str) -> (tasks: Vec<Task>)
        ensures
            tasks@ == self@.fired(expression@),
    {
        proof {
            use_type_invariant(self);
        }
        let owned = String::from_str(expression);
        match self.state {
            SchedulerState::Running => {},
            _ => {
                return Vec::new();
            },
        }
        match self.find(&owned) {
            Some(i) => {
                proof {
                    let chosen = choose|k: int|
                        0 <= k < self@.triggers.len() && #[trigger] self@.triggers[k].expression
                            == expression@;
                    assert(self@.triggers[i as int].expression == expression@);
                    assert(chosen == i);
                }
                self.triggers[i].tasks.clone()
            },
            None => Vec::new(),
        }
    }

    /// The registered triggers, in the order in which they were added.
    pub fn triggers(&self) -> (copies: Vec<Trigger>)
        ensures
            trigger_views(copies@) == self@.triggers,
    {
        let mut copies: Vec<Trigger> = Vec::new();
        let mut i: usize = 0;
        while i < self.triggers.len()
            invariant
                i <= self.triggers@.len(),
                copies@.len() == i,
                forall|j: int| 0 <= j < i ==> (#[trigger] copies@[j])@ == self.triggers@[j]@,
            decreases self.triggers@.len() - i,
        {
            copies.push(self.triggers[i].duplicate());
            i = i + 1;
        }
        assert(trigger_views(copies@) =~= trigger_views(self.triggers@));
        copies
    }
}

/// Whether every expression of a table is accepted by the scheduling
/// library.
pub open spec fn all_accepted(table: Seq<TriggerView>) -> bool {
    forall|i: int| 0 <= i < table.len() ==> cron_expression_accepted(#[trigger] table[i].expression)
}

/// Whether no two triggers of a table have the same expression.
pub open spec fn all_distinct(table: Seq<TriggerView>) -> bool {
    forall|i: int, j: int|
        0 <= i < table.len() && 0 <= j < table.len() && i != j ==> (#[trigger] table[i]).expression
            != (#[trigger] table[j]).expression
}

/// Whether a table has a trigger with the expression.
pub open spec fn table_has(table: Seq<TriggerView>, expression: Seq<char>) -> bool {
    exists|i: int| 0 <= i < table.len() && #[trigger] table[i].expression == expression
}

/// What offering the triggers of a table one after the other comes to: the
/// refusal of the first trigger that is refused, or success.
pub open spec fn installed(table: Seq<TriggerView>) -> Result<(), SchedulerConfigError>
    decreases table.len(),
{
    if table.len() == 0 {
        Ok(())
    } else {
        match installed(table.drop_last()) {
            Err(error) => Err(error),
            Ok(()) => {
                if !cron_expression_accepted(table.last().expression) {
                    Err(SchedulerConfigError::InvalidExpression)
                } else if table_has(table.drop_last(), table.last().expression) {
                    Err(SchedulerConfigError::DuplicateTrigger)
                } else {
                    Ok(())
                }
            },
        }
    }
}

/// A table is installed exactly when all its expressions are accepted and
/// no two are the same; a table without two equal expressions is never
/// refused as having a duplicate.
pub proof fn lemma_installed(table: Seq<TriggerView>)
    ensures
        installed(table) is Ok <==> all_accepted(table) && all_distinct(table),
        all_distinct(table) ==> installed(table) != Err::<(), SchedulerConfigError>(
            SchedulerConfigError::DuplicateTrigger,
        ),
        installed(table) is Err ==> installed(table) == Err::<(), SchedulerConfigError>(
            SchedulerConfigError::DuplicateTrigger,
        ) || installed(table) == Err::<(), SchedulerConfigError>(
            SchedulerConfigError::InvalidExpression,
        ),
    decreases table.len(),
{
    if table.len() > 0 {
        let front = table.drop_last();
        let n = table.len() - 1;
        lemma_installed(front);
        assert forall|i: int| 0 <= i < front.len() implies #[trigger] front[i] == table[i] by {}
        if all_accepted(table) && all_distinct(table) {
            assert forall|i: int| 0 <= i < front.len() implies cron_expression_accepted(
                #[trigger] front[i].expression,
            ) by {
                assert(front[i] == table[i]);
            }
            assert(all_distinct(front)) by {
                assert forall|i: int, j: int|
                    0 <= i < front.len() && 0 <= j < front.len() && i != j implies (
                #[trigger] front[i]).expression != (#[trigger] front[j]).expression by {
                    assert(front[i] == table[i] && front[j] == table[j]);
                }
            }
            assert(cron_expression_accepted(table[n].expression));
            if table_has(front, table.last().expression) {
                let k = choose|k: int|
                    0 <= k < front.len() && #[trigger] front[k].expression
                        == table.last().expression;
                assert(front[k] == table[k]);
                assert(table[k].expression == table[n].expression);
            }
        }
        if all_distinct(table) {
            assert(all_distinct(front)) by {
                assert forall|i: int, j: int|
                    0 <= i < front.len() && 0 <= j < front.len() && i != j implies (
                #[trigger] front[i]).expression != (#[trigger] front[j]).expression by {
                    assert(front[i] == table[i] && front[j] == table[j]);
                }
            }
            if table_has(front, table.last().expression) {
                let k = choose|k: int|
                    0 <= k < front.len() && #[trigger] front[k].expression
                        == table.last().expression;
                assert(front[k] == table[k]);
                assert(table[k].expression == table[n].expression);
            }
        }
        if installed(table) is Ok {
            assert forall|i: int| 0 <= i < table.len() implies cron_expression_accepted(
                #[trigger] table[i].expression,
            ) by {
                if i < n {
                    assert(front[i] == table[i]);
                }
            }
            assert forall|i: int, j: int|
                0 <= i < table.len() && 0 <= j < table.len() && i != j implies (
            #[trigger] table[i]).expression != (#[trigger] table[j]).expression by {
                if i < n && j < n {
                    assert(front[i] == table[i] && front[j] == table[j]);
                } else if i < n {
                    assert(front[i] == table[i]);
                } else {
                    assert(front[j] == table[j]);
                }
            }
        }
    }
}

/// A refusal stays: what refused the first triggers of a table refuses the
/// table.
proof fn lemma_refusal_stays(table: Seq<TriggerView>, n: int)
    requires
        0 <= n <= table.len(),
        installed(table.take(n)) is Err,
    ensures
        installed(table) == installed(table.take(n)),
    decreases table.len() - n,
{
    if n < table.len() {
        assert(table.take(n + 1).drop_last() =~= table.take(n));
        lemma_refusal_stays(table, n + 1);
    } else {
        assert(table.take(n) =~= table);
    }
}

/// Sets a scheduler up with a table of triggers and starts it.  Fails at
/// the first trigger that is refused; nothing is started then.
pub fn install(table: Vec<Trigger>) -> (result: Result<Scheduler, SchedulerConfigError>)
    ensures
        result is Ok <==> all_accepted(trigger_views(table@)) && all_distinct(
            trigger_views(table@),
        ),
        result matches Ok(scheduler) ==> scheduler@ == (SchedulerView {
            state: SchedulerState::Running,
            triggers: trigger_views(table@),
        }),
        result matches Err(error) ==> installed(trigger_views(table@)) == Err::<
            (),
            SchedulerConfigError,
        >(error),
{
    let ghost wanted = trigger_views(table@);
    let mut scheduler = Scheduler::new();
    let mut i: usize = 0;
    proof {
        assert(wanted.take(0) =~= Seq::empty());
    }
    while i < table.len()
        invariant
            i <= table@.len(),
            wanted == trigger_views(table@),
            scheduler@.state == SchedulerState::Registered,
            scheduler@.triggers == wanted.take(i as int),
            installed(wanted.take(i as int)) is Ok,
        decreases table@.len() - i,
    {
        let trigger = table[i].duplicate();
        let ghost before = scheduler@;
        proof {
            let upto = wanted.take(i as int + 1);
            assert(upto.drop_last() =~= wanted.take(i as int));
            assert(upto.last() == wanted[i as int]);
            assert(upto =~= wanted.take(i as int).push(wanted[i as int]));
        }
        match scheduler.register(trigger.expression.as_str(), trigger.tasks) {
            Ok(()) => {},
            Err(error) => {
                proof {
                    lemma_refusal_stays(wanted, i as int + 1);
                }
                return Err(error);
            },
        }
        i = i + 1;
    }
    proof {
        assert(wanted.take(table@.len() as int) =~= wanted);
        lemma_installed(wanted);
    }
    let started = scheduler.start();
    Ok(scheduler)
}

/// Sets the scheduler up with the timetable of the crawler and starts it.
pub fn run_cron() -> (result: Result<Scheduler, SchedulerConfigError>)
    ensures
        result is Ok <==> all_accepted(timetable_view()),
        result matches Ok(scheduler) ==> scheduler@ == (SchedulerView {
            state: SchedulerState::Running,
            triggers: timetable_view(),
        }),
        result matches Err(error) ==> error == SchedulerConfigError::InvalidExpression,
{
    proof {
        lemma_timetable_distinct();
        lemma_installed(timetable_view());
    }
    install(timetable())
}

/// No two triggers of the timetable have the same expression.
pub proof fn lemma_timetable_distinct()
    ensures
        all_distinct(timetable_view()),
{
    reveal_strlit("0 0 17 * * *");
    reveal_strlit("0 0 19 * * *");
    reveal_strlit("0 0 21 * * *");
    reveal_strlit("0 0 0 * * *");
    reveal_strlit("0 0 7 * * *");
    reveal_strlit("0 1 7 * * *");
    reveal_strlit("0 0 13 * * *");
    reveal_strlit("0 * * * * *");
    let table = timetable_view();
    assert(table[0].expression[5] == '7');
    assert(table[1].expression[5] == '9');
    assert(table[2].expression[4] == '2');
    assert(table[3].expression.len() == 11);
    assert(table[4].expression[2] == '0' && table[4].expression[4] == '7');
    assert(table[5].expression[2] == '1');
    assert(table[6].expression[5] == '3');
    assert(table[7].expression[2] == '*');
}

/// What the start of the process comes to: the scheduler, or why its
/// schedule was refused, and the notice that announces the start.
pub struct Startup {
    pub scheduler: Result<Scheduler, SchedulerConfigError>,
    pub notice: String,
}

/// The notice that announces the start on a machine with the given
/// operating system and architecture.
pub open spec fn startup_notice(os: Seq<char>, arch: Seq<char>) -> Seq<char> {
    "StockCrawler 已啟動\r\nRust OS/Arch: "@ + os + "/"@ + arch + "\r\n"@
}

/// Writes the notice that announces the start.
pub fn startup_message(os: &str, arch: &str) -> (notice: String)
    ensures
        notice@ == startup_notice(os@, arch@),
{
    let mut notice = String::from_str("StockCrawler 已啟動\r\nRust OS/Arch: ");
    notice.append(os);
    notice.append("/");
    notice.append(arch);
    notice.append("\r\n");
    notice
}

/// Starts the schedule of the crawler and writes the notice that announces
/// it.  A schedule that was refused is reported, not started.
pub fn start(os: &str, arch: &str) -> (startup: Startup)
    ensures
        startup.notice@ == startup_notice(os@, arch@),
        startup.scheduler is Ok <==> all_accepted(timetable_view()),
        startup.scheduler matches Ok(scheduler) ==> scheduler@ == (SchedulerView {
            state: SchedulerState::Running,
            triggers: timetable_view(),
        }),
        startup.scheduler matches Err(error) ==> error == SchedulerConfigError::InvalidExpression,
{
    let scheduler = run_cron();
    let notice = startup_message(os, arch);
    Startup { scheduler, notice }
}

/// One firing of a trigger: its tasks run one after the other, and each
/// runs whatever became of those before it.
pub struct Firing {
    tasks: Vec<Task>,
    results: Vec<bool>,
}

/// A firing as plain values: the tasks and how those that ran ended.
pub struct FiringView {
    pub tasks: Seq<Task>,
    pub results: Seq<bool>,
}

impl FiringView {
    /// The task to run next: the first that has no result yet.  How the
    /// tasks before it ended does not matter.
    pub open spec fn next(self) -> Option<Task> {
        if self.results.len() < self.tasks.len() {
            Some(self.tasks[self.results.len() as int])
        } else {
            None
        }
    }

    /// The firing after the task that ran last ended.
    pub open spec fn recorded(self, succeeded: bool) -> FiringView {
        if self.results.len() < self.tasks.len() {
            FiringView { results: self.results.push(succeeded), ..self }
        } else {
            self
        }
    }
}

impl View for Firing {
    type V = FiringView;

    closed spec fn view(&self) -> FiringView {
        FiringView { tasks: self.tasks@, results: self.results@ }
    }
}

impl Firing {
    /// A firing with the tasks, none of which has run.
    pub fn new(tasks: Vec<Task>) -> (firing: Firing)
        ensures
            firing@ == (FiringView { tasks: tasks@, results: Seq::empty() }),
    {
        Firing { tasks, results: Vec::new() }
    }

    /// The task to run next, if any is left.
    pub fn next_task(&self) -> (task: Option<Task>)
        ensures
            task == self@.next(),
    {
        if self.results.len() < self.tasks.len() {
            Some(self.tasks[self.results.len()])
        } else {
            None
        }
    }

    /// Notes how the task that ran last ended.  With no task left, nothing
    /// is noted.
    pub fn record(&mut self, succeeded: bool)
        ensures
            final(self)@ == old(self)@.recorded(succeeded),
    {
        if self.results.len() < self.tasks.len() {
            self.results.push(succeeded);
        }
    }

    /// Whether every task has run.
    pub fn is_done(&self) -> (done: bool)
        ensures
            done == (self@.next() is None),
    {
        self.results.len() >= self.tasks.len()
    }

    /// How the tasks that ran ended, in order.
    pub fn results(&self) -> (results: Vec<bool>)
        ensures
            results@ == self@.results,
    {
        self.results.clone()
    }
}

/// A task that fails cancels nothing: after any results of the first `k`
/// tasks of a firing, the task to run next is task `k`.
pub proof fn law_a_failure_cancels_nothing(tasks: Seq<Task>, results: Seq<bool>)
    requires
        results.len() < tasks.len(),
    ensures
        (FiringView { tasks, results }).next() == Some(tasks[results.len() as int]),
        (FiringView { tasks, results }).recorded(false).results.len() == results.len() + 1,
        (FiringView { tasks, results }).recorded(false).tasks == tasks,
{
}

} // verus!
