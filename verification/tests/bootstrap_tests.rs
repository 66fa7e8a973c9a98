use cipher_shell::bootstrap::{
    BootstrapFailure, BootstrapOutcome, BootstrapStep, Bootstrapper, StepRecord, StepReport,
    StepStatus, VERIFIED_MARK,
};
use cipher_shell::invocation::BackendTask;

fn report(status: StepStatus) -> StepReport {
    StepReport { status, stdout: String::new(), stderr: String::new() }
}

fn said(status: StepStatus, stdout: &str) -> StepReport {
    StepReport { status, stdout: stdout.to_string(), stderr: String::new() }
}

/// Runs a whole preparation; `answer` says how each step ends.
fn run(answer: &dyn Fn(BootstrapStep) -> StepReport) -> (Vec<BootstrapStep>, Bootstrapper) {
    let mut bootstrapper = Bootstrapper::new();
    let mut steps = Vec::new();
    while let Some(step) = bootstrapper.next_step() {
        assert_eq!(bootstrapper.outcome(), None);
        steps.push(step);
        assert!(bootstrapper.record(answer(step)));
        assert!(steps.len() <= 5);
    }
    (steps, bootstrapper)
}

fn count(steps: &[BootstrapStep], step: BootstrapStep) -> usize {
    steps.iter().filter(|taken| **taken == step).count()
}

#[test]
fn failed_schema_load_is_followed_by_migrations_once() {
    let (steps, bootstrapper) = run(&|step| match step {
        BootstrapStep::LoadSchema => report(StepStatus::Failed),
        _ => report(StepStatus::Succeeded),
    });
    assert_eq!(
        steps,
        vec![
            BootstrapStep::EnsureStorage,
            BootstrapStep::CreateDatabase,
            BootstrapStep::LoadSchema,
            BootstrapStep::RunMigrations,
            BootstrapStep::VerifyBaseline,
        ]
    );
    assert_eq!(count(&steps, BootstrapStep::RunMigrations), 1);
    assert_eq!(bootstrapper.outcome(), Some(BootstrapOutcome::MigratedFallback));
}

#[test]
fn migrations_are_not_run_after_a_schema_load_that_succeeded() {
    let (steps, bootstrapper) = run(&|_| report(StepStatus::Succeeded));
    assert_eq!(
        steps,
        vec![
            BootstrapStep::EnsureStorage,
            BootstrapStep::CreateDatabase,
            BootstrapStep::LoadSchema,
            BootstrapStep::VerifyBaseline,
        ]
    );
    assert_eq!(count(&steps, BootstrapStep::RunMigrations), 0);
    assert_eq!(bootstrapper.outcome(), Some(BootstrapOutcome::Created));
}

#[test]
fn migrations_are_run_whatever_else_failed() {
    for storage in [StepStatus::Succeeded, StepStatus::Failed, StepStatus::NotRun] {
        for create in [StepStatus::Succeeded, StepStatus::Failed, StepStatus::NotRun] {
            for schema in [StepStatus::Succeeded, StepStatus::Failed, StepStatus::NotRun] {
                for migrate in [StepStatus::Succeeded, StepStatus::Failed, StepStatus::NotRun] {
                    let (steps, _) = run(&|step| match step {
                        BootstrapStep::EnsureStorage => report(storage),
                        BootstrapStep::CreateDatabase => report(create),
                        BootstrapStep::LoadSchema => report(schema),
                        BootstrapStep::RunMigrations => report(migrate),
                        BootstrapStep::VerifyBaseline => report(StepStatus::Succeeded),
                    });
                    let expected = if schema == StepStatus::Failed { 1 } else { 0 };
                    assert_eq!(count(&steps, BootstrapStep::RunMigrations), expected);
                    assert_eq!(count(&steps, BootstrapStep::LoadSchema), 1);
                    assert_eq!(count(&steps, BootstrapStep::EnsureStorage), 1);
                    assert_eq!(count(&steps, BootstrapStep::CreateDatabase), 1);
                    assert_eq!(count(&steps, BootstrapStep::VerifyBaseline), 1);
                    assert_eq!(steps.last(), Some(&BootstrapStep::VerifyBaseline));
                    if expected == 1 {
                        assert_eq!(steps[2], BootstrapStep::LoadSchema);
                        assert_eq!(steps[3], BootstrapStep::RunMigrations);
                    }
                }
            }
        }
    }
}

#[test]
fn schema_load_that_could_not_be_run_leads_to_no_migrations() {
    let (steps, bootstrapper) = run(&|step| match step {
        BootstrapStep::LoadSchema => report(StepStatus::NotRun),
        _ => report(StepStatus::Succeeded),
    });
    assert_eq!(count(&steps, BootstrapStep::RunMigrations), 0);
    assert_eq!(
        bootstrapper.outcome(),
        Some(BootstrapOutcome::Failed(BootstrapFailure::SchemaLoadNotRun))
    );
}

#[test]
fn outcome_is_verified_where_the_check_prints_the_mark() {
    assert_eq!(VERIFIED_MARK, "Database verified");
    let (_, confirmed) = run(&|step| match step {
        BootstrapStep::VerifyBaseline => said(StepStatus::Succeeded, "Database verified\n"),
        _ => report(StepStatus::Succeeded),
    });
    assert_eq!(confirmed.outcome(), Some(BootstrapOutcome::Verified));
    let (_, noisy) = run(&|step| match step {
        BootstrapStep::VerifyBaseline => {
            said(StepStatus::Succeeded, "DEPRECATION WARNING\nDatabase verified\n")
        }
        _ => report(StepStatus::Succeeded),
    });
    assert_eq!(noisy.outcome(), Some(BootstrapOutcome::Verified));
    let (_, missing) = run(&|step| match step {
        BootstrapStep::VerifyBaseline => said(StepStatus::Succeeded, "Database missing tables\n"),
        _ => report(StepStatus::Succeeded),
    });
    assert_eq!(missing.outcome(), Some(BootstrapOutcome::Created));
    let (_, failed) = run(&|step| match step {
        BootstrapStep::VerifyBaseline => said(StepStatus::Failed, "Database verified\n"),
        _ => report(StepStatus::Succeeded),
    });
    assert_eq!(failed.outcome(), Some(BootstrapOutcome::Created));
    let (_, not_run) = run(&|step| match step {
        BootstrapStep::VerifyBaseline => said(StepStatus::NotRun, "Database verified"),
        _ => report(StepStatus::Succeeded),
    });
    assert_eq!(not_run.outcome(), Some(BootstrapOutcome::Created));
    let (_, elsewhere) = run(&|step| match step {
        BootstrapStep::CreateDatabase => said(StepStatus::Succeeded, "Database verified"),
        _ => report(StepStatus::Succeeded),
    });
    assert_eq!(elsewhere.outcome(), Some(BootstrapOutcome::Created));
}

#[test]
fn outcome_after_a_failed_schema_load_goes_by_the_migrations() {
    for (migrate, expected) in [
        (StepStatus::Succeeded, BootstrapOutcome::MigratedFallback),
        (StepStatus::Failed, BootstrapOutcome::Failed(BootstrapFailure::MigrationsFailed)),
        (StepStatus::NotRun, BootstrapOutcome::Failed(BootstrapFailure::MigrationsNotRun)),
    ] {
        let (_, bootstrapper) = run(&|step| match step {
            BootstrapStep::LoadSchema => report(StepStatus::Failed),
            BootstrapStep::RunMigrations => report(migrate),
            BootstrapStep::VerifyBaseline => said(StepStatus::Succeeded, "Database verified\n"),
            _ => report(StepStatus::Succeeded),
        });
        assert_eq!(bootstrapper.outcome(), Some(expected));
    }
}

#[test]
fn failures_before_the_schema_load_do_not_end_the_chain() {
    let (steps, bootstrapper) = run(&|step| match step {
        BootstrapStep::EnsureStorage => report(StepStatus::Failed),
        BootstrapStep::CreateDatabase => report(StepStatus::NotRun),
        _ => report(StepStatus::Succeeded),
    });
    assert_eq!(steps.len(), 4);
    assert_eq!(bootstrapper.outcome(), Some(BootstrapOutcome::Created));
}

#[test]
fn reports_are_kept_in_order() {
    let mut bootstrapper = Bootstrapper::new();
    assert_eq!(bootstrapper.records().len(), 0);
    assert_eq!(bootstrapper.next_step(), Some(BootstrapStep::EnsureStorage));
    let first = StepReport {
        status: StepStatus::Failed,
        stdout: String::new(),
        stderr: "permission denied".to_string(),
    };
    assert!(bootstrapper.record(first.clone()));
    let second = StepReport {
        status: StepStatus::Succeeded,
        stdout: "Created database 'desktop.sqlite3'\n".to_string(),
        stderr: String::new(),
    };
    assert_eq!(bootstrapper.next_step(), Some(BootstrapStep::CreateDatabase));
    assert!(bootstrapper.record(second.clone()));
    assert_eq!(
        *bootstrapper.records(),
        vec![
            StepRecord { step: BootstrapStep::EnsureStorage, report: first },
            StepRecord { step: BootstrapStep::CreateDatabase, report: second },
        ]
    );
    assert_eq!(bootstrapper.next_step(), Some(BootstrapStep::LoadSchema));
    assert_eq!(bootstrapper.outcome(), None);
}

#[test]
fn report_after_the_last_step_is_dropped() {
    let (steps, mut bootstrapper) = run(&|_| report(StepStatus::Succeeded));
    assert_eq!(bootstrapper.next_step(), None);
    assert!(!bootstrapper.record(report(StepStatus::Failed)));
    assert_eq!(bootstrapper.records().len(), steps.len());
    assert_eq!(bootstrapper.next_step(), None);
    assert_eq!(bootstrapper.outcome(), Some(BootstrapOutcome::Created));
}

#[test]
fn steps_follow_one_another() {
    let all = [StepStatus::Succeeded, StepStatus::Failed, StepStatus::NotRun];
    for status in all {
        assert_eq!(
            BootstrapStep::EnsureStorage.then_after(status),
            Some(BootstrapStep::CreateDatabase)
        );
        assert_eq!(
            BootstrapStep::CreateDatabase.then_after(status),
            Some(BootstrapStep::LoadSchema)
        );
        assert_eq!(
            BootstrapStep::RunMigrations.then_after(status),
            Some(BootstrapStep::VerifyBaseline)
        );
        assert_eq!(BootstrapStep::VerifyBaseline.then_after(status), None);
    }
    assert_eq!(
        BootstrapStep::LoadSchema.then_after(StepStatus::Succeeded),
        Some(BootstrapStep::VerifyBaseline)
    );
    assert_eq!(
        BootstrapStep::LoadSchema.then_after(StepStatus::Failed),
        Some(BootstrapStep::RunMigrations)
    );
    assert_eq!(
        BootstrapStep::LoadSchema.then_after(StepStatus::NotRun),
        Some(BootstrapStep::VerifyBaseline)
    );
}

#[test]
fn each_step_but_the_first_is_a_command() {
    assert_eq!(BootstrapStep::EnsureStorage.task(), None);
    assert_eq!(BootstrapStep::CreateDatabase.task(), Some(BackendTask::CreateDatabase));
    assert_eq!(BootstrapStep::LoadSchema.task(), Some(BackendTask::LoadSchema));
    assert_eq!(BootstrapStep::RunMigrations.task(), Some(BackendTask::RunMigrations));
    assert_eq!(BootstrapStep::VerifyBaseline.task(), Some(BackendTask::VerifyBaseline));
}
