//! Preparing the backend's database before its process starts: a fixed
//! chain of steps in which a failed schema load falls back to the
//! migrations. The steps themselves are run outside; what is decided here
//! is which step comes next and what the run amounted to.

use vstd::prelude::*;
use crate::invocation::BackendTask;
use crate::text::{chars_of, contains_text, find_text};

verus! {

/// What the baseline check prints where the baseline table exists.
pub const VERIFIED_MARK: &'static str = "Database verified";

/// One step of the preparation.
#[derive(Clone, Copy, Debug, PartialEq, Eq, Structural)]
pub enum BootstrapStep {
    /// Make sure that the storage directory exists.
    EnsureStorage,
    /// Create the database; nothing happens where it exists.
    CreateDatabase,
    /// Load the schema: the fast path.
    LoadSchema,
    /// Run the migrations: the slow path, taken where the fast one failed.
    RunMigrations,
    /// Look for the baseline table.
    VerifyBaseline,
}

/// How a step ended.
#[derive(Clone, Copy, Debug, PartialEq, Eq, Structural)]
pub enum StepStatus {
    /// It ran and reported success.
    Succeeded,
    /// It ran and reported failure.
    Failed,
    /// It could not be run at all.
    NotRun,
}

/// What a step left behind.
#[derive(Clone, Debug, PartialEq, Eq)]
pub struct StepReport {
    pub status: StepStatus,
    pub stdout: String,
    pub stderr: String,
}

/// What the contracts see of a `StepReport`.
pub struct StepReportView {
    pub status: StepStatus,
    pub stdout: Seq<char>,
    pub stderr: Seq<char>,
}

/// A step with its report, kept for diagnostics.
#[derive(Clone, Debug, PartialEq, Eq)]
pub struct StepRecord {
    pub step: BootstrapStep,
    pub report: StepReport,
}

/// What the contracts see of a `StepRecord`.
pub struct StepRecordView {
    pub step: BootstrapStep,
    pub report: StepReportView,
}

/// Why the database may be unusable.
#[derive(Clone, Copy, Debug, PartialEq, Eq, Structural)]
pub enum BootstrapFailure {
    /// The schema load could not be run, so nothing said that migrations
    /// were needed.
    SchemaLoadNotRun,
    /// Schema load and migrations both failed.
    MigrationsFailed,
    /// The schema load failed and the migrations could not be run.
    MigrationsNotRun,
}

/// What the preparation amounted to.
#[derive(Clone, Copy, Debug, PartialEq, Eq, Structural)]
pub enum BootstrapOutcome {
    /// The schema was loaded; the baseline table was not confirmed.
    Created,
    /// The schema was loaded and the baseline table is there.
    Verified,
    /// The schema load failed and the migrations made up for it.
    MigratedFallback,
    /// Neither path succeeded. The backend is started all the same, and
    /// reports what it misses.
    Failed(BootstrapFailure),
}

/// The preparation of one start: the steps taken so far, in order, each
/// with its report.
pub struct Bootstrapper {
    records: Vec<StepRecord>,
}

impl View for StepReport {
    type V = StepReportView;

    open spec fn view(&self) -> StepReportView {
        StepReportView { status: self.status, stdout: self.stdout@, stderr: self.stderr@ }
    }
}

impl View for StepRecord {
    type V = StepRecordView;

    open spec fn view(&self) -> StepRecordView {
        StepRecordView { step: self.step, report: self.report@ }
    }
}

/// What the contracts see of a list of records.
pub open spec fn record_views(records: Seq<StepRecord>) -> Seq<StepRecordView> {
    Seq::new(records.len(), |at: int| records[at]@)
}

/// The step that follows `step` once it ended with `status`. No failure
/// ends the chain early; only a failed schema load changes its course.
pub open spec fn following(step: BootstrapStep, status: StepStatus) -> Option<BootstrapStep> {
    match step {
        BootstrapStep::EnsureStorage => Some(BootstrapStep::CreateDatabase),
        BootstrapStep::CreateDatabase => Some(BootstrapStep::LoadSchema),
        BootstrapStep::LoadSchema => if status == StepStatus::Failed {
            Some(BootstrapStep::RunMigrations)
        } else {
            Some(BootstrapStep::VerifyBaseline)
        },
        BootstrapStep::RunMigrations => Some(BootstrapStep::VerifyBaseline),
        BootstrapStep::VerifyBaseline => None,
    }
}

/// The step that belongs at position `at` of `records`, given the records
/// before it.
pub open spec fn expected_step(records: Seq<StepRecordView>, at: int) -> Option<BootstrapStep> {
    if at <= 0 {
        Some(BootstrapStep::EnsureStorage)
    } else {
        following(records[at - 1].step, records[at - 1].report.status)
    }
}

/// Whether `records` are the beginning of a preparation: each step is the
/// one that belongs in its place.
pub open spec fn is_run(records: Seq<StepRecordView>) -> bool {
    forall|at: int|
        0 <= at < records.len() ==> #[trigger] expected_step(records, at) == Some(records[at].step)
}

/// The step to take after `records`; `None` once the preparation is
/// complete.
pub open spec fn pending(records: Seq<StepRecordView>) -> Option<BootstrapStep> {
    expected_step(records, records.len() as int)
}

/// The command that carries out `step`; `None` for the one step that is
/// no command.
pub open spec fn task_of(step: BootstrapStep) -> Option<BackendTask> {
    match step {
        BootstrapStep::EnsureStorage => None,
        BootstrapStep::CreateDatabase => Some(BackendTask::CreateDatabase),
        BootstrapStep::LoadSchema => Some(BackendTask::LoadSchema),
        BootstrapStep::RunMigrations => Some(BackendTask::RunMigrations),
        BootstrapStep::VerifyBaseline => Some(BackendTask::VerifyBaseline),
    }
}

/// The report of the first of `records` at or after `from` that is of
/// `step`.
pub open spec fn report_from(
    records: Seq<StepRecordView>,
    step: BootstrapStep,
    from: int,
) -> Option<StepReportView>
    decreases records.len() - from,
{
    if from < 0 || from >= records.len() {
        None
    } else if records[from].step == step {
        Some(records[from].report)
    } else {
        report_from(records, step, from + 1)
    }
}

/// How `step` ended in `records`; `None` where it was not taken.
pub open spec fn status_of(
    records: Seq<StepRecordView>,
    step: BootstrapStep,
) -> Option<StepStatus> {
    match report_from(records, step, 0) {
        Some(report) => Some(report.status),
        None => None,
    }
}

/// Whether the baseline check ran, succeeded and printed the mark.
pub open spec fn baseline_confirmed(records: Seq<StepRecordView>) -> bool {
    match report_from(records, BootstrapStep::VerifyBaseline, 0) {
        Some(report) => report.status == StepStatus::Succeeded && contains_text(
            report.stdout,
            VERIFIED_MARK@,
        ),
        None => false,
    }
}

/// What the steps in `records` amounted to.
pub open spec fn outcome_of(records: Seq<StepRecordView>) -> BootstrapOutcome {
    match status_of(records, BootstrapStep::LoadSchema) {
        Some(StepStatus::Succeeded) => if baseline_confirmed(records) {
            BootstrapOutcome::Verified
        } else {
            BootstrapOutcome::Created
        },
        Some(StepStatus::Failed) => match status_of(records, BootstrapStep::RunMigrations) {
            Some(StepStatus::Succeeded) => BootstrapOutcome::MigratedFallback,
            Some(StepStatus::Failed) => BootstrapOutcome::Failed(BootstrapFailure::MigrationsFailed),
            _ => BootstrapOutcome::Failed(BootstrapFailure::MigrationsNotRun),
        },
        _ => BootstrapOutcome::Failed(BootstrapFailure::SchemaLoadNotRun),
    }
}

/// How often `step` was taken in `records`.
pub open spec fn times_taken(records: Seq<StepRecordView>, step: BootstrapStep) -> nat
    decreases records.len(),
{
    if records.len() == 0 {
        0
    } else {
        times_taken(records.drop_last(), step) + if records.last().step == step {
            1nat
        } else {
            0nat
        }
    }
}

impl BootstrapStep {
    /// The step after this one, which ended with `status`.
    pub fn then_after(self, status: StepStatus) -> (next: Option<BootstrapStep>)
        ensures
            next == following(self, status),
    {
        match self {
            BootstrapStep::EnsureStorage => Some(BootstrapStep::CreateDatabase),
            BootstrapStep::CreateDatabase => Some(BootstrapStep::LoadSchema),
            BootstrapStep::LoadSchema => match status {
                StepStatus::Failed => Some(BootstrapStep::RunMigrations),
                _ => Some(BootstrapStep::VerifyBaseline),
            },
            BootstrapStep::RunMigrations => Some(BootstrapStep::VerifyBaseline),
            BootstrapStep::VerifyBaseline => None,
        }
    }

    /// The command that carries this step out, if it is one.
    pub fn task(self) -> (task: Option<BackendTask>)
        ensures
            task == task_of(self),
    {
        match self {
            BootstrapStep::EnsureStorage => None,
            BootstrapStep::CreateDatabase => Some(BackendTask::CreateDatabase),
            BootstrapStep::LoadSchema => Some(BackendTask::LoadSchema),
            BootstrapStep::RunMigrations => Some(BackendTask::RunMigrations),
            BootstrapStep::VerifyBaseline => Some(BackendTask::VerifyBaseline),
        }
    }
}

impl View for Bootstrapper {
    type V = Seq<StepRecordView>;

    closed spec fn view(&self) -> Seq<StepRecordView> {
        record_views(self.records@)
    }
}

impl Bootstrapper {
    #[verifier::type_invariant]
    spec fn steps_in_order(&self) -> bool {
        is_run(record_views(self.records@))
    }

    /// A preparation of which no step was taken yet.
    pub fn new() -> (fresh: Bootstrapper)
        ensures
            fresh@ == Seq::<StepRecordView>::empty(),
            is_run(fresh@),
    {
        let fresh = Bootstrapper { records: Vec::new() };
        assert(fresh@ =~= Seq::<StepRecordView>::empty());
        fresh
    }

    /// The step to take now; `None` once the preparation is complete.
    pub fn next_step(&self) -> (next: Option<BootstrapStep>)
        ensures
            next == pending(self@),
            is_run(self@),
    {
        proof {
            use_type_invariant(self);
        }
        let taken = self.records.len();
        if taken == 0 {
            Some(BootstrapStep::EnsureStorage)
        } else {
            let last = &self.records[taken - 1];
            last.step.then_after(last.report.status)
        }
    }

    /// Puts down how the pending step ended, which makes the step after
    /// it the pending one. Once the preparation is complete there is no
    /// pending step: the report is dropped and the result is `false`.
    pub fn record(&mut self, report: StepReport) -> (accepted: bool)
        ensures
            is_run(final(self)@),
            match pending(old(self)@) {
                Some(step) => accepted && final(self)@ == old(self)@.push(
                    StepRecordView { step, report: report@ },
                ),
                None => !accepted && final(self)@ == old(self)@,
            },
    {
        proof {
            use_type_invariant(&*self);
        }
        match self.next_step() {
            Some(step) => {
                let ghost before = self@;
                let ghost added = StepRecordView { step, report: report@ };
                let mut taken = Bootstrapper { records: Vec::new() };
                std::mem::swap(self, &mut taken);
                let mut records = taken.records;
                records.push(StepRecord { step, report });
                proof {
                    let after = record_views(records@);
                    assert(after =~= before.push(added));
                    assert forall|at: int| 0 <= at < after.len() implies #[trigger] expected_step(
                        after,
                        at,
                    ) == Some(after[at].step) by {
                        if at < before.len() {
                            assert(expected_step(before, at) == Some(before[at].step));
                        }
                    }
                }
                *self = Bootstrapper { records };
                true
            },
            None => false,
        }
    }

    /// The steps taken so far, each with its report.
    pub fn records(&self) -> (records: &Vec<StepRecord>)
        ensures
            record_views(records@) == self@,
            is_run(self@),
    {
        proof {
            use_type_invariant(self);
        }
        &self.records
    }

    /// What the preparation amounted to; `None` while a step is pending.
    pub fn outcome(&self) -> (outcome: Option<BootstrapOutcome>)
        ensures
            is_run(self@),
            outcome == if pending(self@) is None {
                Some(outcome_of(self@))
            } else {
                None
            },
    {
        if self.next_step().is_some() {
            return None;
        }
        let schema = find_report(&self.records, BootstrapStep::LoadSchema);
        let summary = match schema {
            Some(StepReport { status: StepStatus::Succeeded, .. }) => {
                match find_report(&self.records, BootstrapStep::VerifyBaseline) {
                    Some(check) => {
                        let succeeded = match check.status {
                            StepStatus::Succeeded => true,
                            _ => false,
                        };
                        if succeeded && find_text(
                            chars_of(check.stdout.as_str()).as_slice(),
                            chars_of(VERIFIED_MARK).as_slice(),
                        ) {
                            BootstrapOutcome::Verified
                        } else {
                            BootstrapOutcome::Created
                        }
                    },
                    None => BootstrapOutcome::Created,
                }
            },
            Some(StepReport { status: StepStatus::Failed, .. }) => {
                match find_report(&self.records, BootstrapStep::RunMigrations) {
                    Some(StepReport { status: StepStatus::Succeeded, .. }) => {
                        BootstrapOutcome::MigratedFallback
                    },
                    Some(StepReport { status: StepStatus::Failed, .. }) => {
                        BootstrapOutcome::Failed(BootstrapFailure::MigrationsFailed)
                    },
                    _ => BootstrapOutcome::Failed(BootstrapFailure::MigrationsNotRun),
                }
            },
            _ => BootstrapOutcome::Failed(BootstrapFailure::SchemaLoadNotRun),
        };
        Some(summary)
    }
}

fn find_report(records: &Vec<StepRecord>, step: BootstrapStep) -> (found: Option<&StepReport>)
    ensures
        match found {
            Some(report) => report_from(record_views(records@), step, 0) == Some(report@),
            None => report_from(record_views(records@), step, 0) is None,
        },
{
    let ghost views = record_views(records@);
    let mut at: usize = 0;
    while at < records.len()
        invariant
            at <= records.len(),
            views == record_views(records@),
            report_from(views, step, 0) == report_from(views, step, at as int),
        decreases records.len() - at,
    {
        if records[at].step == step {
            return Some(&records[at].report);
        }
        at += 1;
    }
    None
}

/// A preparation takes its steps in one of two orders: storage, creation,
/// schema load and baseline check, with the migrations before the check
/// exactly where the schema load failed.
pub proof fn lemma_run_shape(records: Seq<StepRecordView>)
    requires
        is_run(records),
    ensures
        records.len() <= 5,
        records.len() > 0 ==> records[0].step == BootstrapStep::EnsureStorage,
        records.len() > 1 ==> records[1].step == BootstrapStep::CreateDatabase,
        records.len() > 2 ==> records[2].step == BootstrapStep::LoadSchema,
        records.len() > 3 ==> records[3].step == if records[2].report.status == StepStatus::Failed {
            BootstrapStep::RunMigrations
        } else {
            BootstrapStep::VerifyBaseline
        },
        records.len() > 4 ==> records[2].report.status == StepStatus::Failed && records[4].step
            == BootstrapStep::VerifyBaseline,
        pending(records) is None <==> records.len() > 3 && records.last().step
            == BootstrapStep::VerifyBaseline,
{
    if records.len() > 0 {
        assert(expected_step(records, 0) == Some(records[0].step));
    }
    if records.len() > 1 {
        assert(expected_step(records, 1) == Some(records[1].step));
    }
    if records.len() > 2 {
        assert(expected_step(records, 2) == Some(records[2].step));
    }
    if records.len() > 3 {
        assert(expected_step(records, 3) == Some(records[3].step));
    }
    if records.len() > 4 {
        assert(expected_step(records, 4) == Some(records[4].step));
    }
    if records.len() > 5 {
        assert(expected_step(records, 5) == Some(records[5].step));
    }
}

/// In a complete preparation the migrations are run exactly once, right
/// after the schema load, where the schema load reported failure, and not
/// at all where it did not.
pub proof fn lemma_migrations_follow_failed_schema_load(records: Seq<StepRecordView>)
    requires
        is_run(records),
        pending(records) is None,
    ensures
        status_of(records, BootstrapStep::LoadSchema) == Some(records[2].report.status),
        times_taken(records, BootstrapStep::LoadSchema) == 1,
        status_of(records, BootstrapStep::LoadSchema) == Some(StepStatus::Failed) ==> {
            &&& times_taken(records, BootstrapStep::RunMigrations) == 1
            &&& records[2].step == BootstrapStep::LoadSchema
            &&& records[3].step == BootstrapStep::RunMigrations
        },
        status_of(records, BootstrapStep::LoadSchema) != Some(StepStatus::Failed) ==> times_taken(
            records,
            BootstrapStep::RunMigrations,
        ) == 0,
{
    lemma_run_shape(records);
    reveal_with_fuel(report_from, 4);
    lemma_times_taken(records, BootstrapStep::LoadSchema);
    lemma_times_taken(records, BootstrapStep::RunMigrations);
}

/// While a preparation is under way, the migrations have been run only
/// where the schema load reported failure, and never more than once.
pub proof fn lemma_no_migrations_without_failure(records: Seq<StepRecordView>)
    requires
        is_run(records),
    ensures
        times_taken(records, BootstrapStep::RunMigrations) <= 1,
        times_taken(records, BootstrapStep::RunMigrations) == 1 ==> status_of(
            records,
            BootstrapStep::LoadSchema,
        ) == Some(StepStatus::Failed),
{
    lemma_run_shape(records);
    reveal_with_fuel(report_from, 4);
    lemma_times_taken(records, BootstrapStep::RunMigrations);
}

proof fn lemma_times_taken(records: Seq<StepRecordView>, step: BootstrapStep)
    requires
        records.len() <= 5,
    ensures
        times_taken(records, step) == (if records.len() > 0 && records[0].step == step {
            1nat
        } else {
            0nat
        }) + (if records.len() > 1 && records[1].step == step {
            1nat
        } else {
            0nat
        }) + (if records.len() > 2 && records[2].step == step {
            1nat
        } else {
            0nat
        }) + (if records.len() > 3 && records[3].step == step {
            1nat
        } else {
            0nat
        }) + (if records.len() > 4 && records[4].step == step {
            1nat
        } else {
            0nat
        }),
    decreases records.len(),
{
    if records.len() > 0 {
        lemma_times_taken(records.drop_last(), step);
    }
}

} // verus!
