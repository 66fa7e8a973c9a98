use cipher_shell::supervisor::{
    stop_reply, BackendProcessHandle, ProcessState, ProcessSupervisor, SupervisorAction,
    SupervisorEvent, ALREADY_RUNNING, NOT_RUNNING, STARTED, STOPPED,
};

fn handle(pid: u32) -> BackendProcessHandle {
    BackendProcessHandle {
        pid,
        working_dir: "/srv/app".to_string(),
        env: vec![
            ("RAILS_ENV".to_string(), "desktop".to_string()),
            ("DATABASE_URL".to_string(), "sqlite3:///data/storage/desktop.sqlite3".to_string()),
        ],
    }
}

fn running(pid: u32) -> ProcessSupervisor {
    let mut supervisor = ProcessSupervisor::new();
    assert_eq!(supervisor.handle_event(SupervisorEvent::StartRequested), SupervisorAction::Launch);
    assert_eq!(
        supervisor.handle_event(SupervisorEvent::Spawned(handle(pid))),
        SupervisorAction::Reply(Ok(STARTED.to_string()))
    );
    supervisor
}

#[test]
fn second_start_is_told_already_running() {
    let mut supervisor = ProcessSupervisor::new();
    assert_eq!(supervisor.handle_event(SupervisorEvent::StartRequested), SupervisorAction::Launch);
    assert_eq!(supervisor.status(), ProcessState::Starting);
    let second = supervisor.handle_event(SupervisorEvent::StartRequested);
    match &second {
        SupervisorAction::Reply(Ok(message)) => assert!(message.contains("already running")),
        other => panic!("{:?}", other),
    }
    assert_eq!(second, SupervisorAction::Reply(Ok("Backend is already running".to_string())));
    assert_eq!(supervisor.status(), ProcessState::Starting);
    assert_eq!(supervisor.handle(), None);
}

#[test]
fn start_while_running_launches_nothing() {
    let mut supervisor = running(41);
    for _ in 0..3 {
        assert_eq!(
            supervisor.handle_event(SupervisorEvent::StartRequested),
            SupervisorAction::Reply(Ok(ALREADY_RUNNING.to_string()))
        );
        assert_eq!(supervisor.status(), ProcessState::Running);
        assert_eq!(supervisor.handle(), Some(&handle(41)));
    }
}

#[test]
fn stop_when_nothing_runs_is_no_error() {
    let mut supervisor = ProcessSupervisor::new();
    let reply = supervisor.handle_event(SupervisorEvent::StopRequested);
    match &reply {
        SupervisorAction::Reply(Ok(message)) => assert!(message.contains("was not running")),
        other => panic!("{:?}", other),
    }
    assert_eq!(reply, SupervisorAction::Reply(Ok("Backend was not running".to_string())));
    assert_eq!(supervisor.status(), ProcessState::NotStarted);
    assert_eq!(supervisor.handle(), None);
}

#[test]
fn stop_is_no_error_in_any_state_without_a_process() {
    let mut starting = ProcessSupervisor::new();
    starting.handle_event(SupervisorEvent::StartRequested);
    assert_eq!(
        starting.handle_event(SupervisorEvent::StopRequested),
        SupervisorAction::Reply(Ok(NOT_RUNNING.to_string()))
    );
    assert_eq!(starting.status(), ProcessState::Starting);

    let mut stopped = running(7);
    stopped.handle_event(SupervisorEvent::StopRequested);
    assert_eq!(
        stopped.handle_event(SupervisorEvent::StopRequested),
        SupervisorAction::Reply(Ok(NOT_RUNNING.to_string()))
    );
    assert_eq!(stopped.status(), ProcessState::Stopped);

    let mut failed = running(7);
    failed.handle_event(SupervisorEvent::ChildExited);
    assert_eq!(
        failed.handle_event(SupervisorEvent::StopRequested),
        SupervisorAction::Reply(Ok(NOT_RUNNING.to_string()))
    );
    assert_eq!(failed.status(), ProcessState::Failed);
}

#[test]
fn fresh_supervisor_has_started_nothing() {
    let supervisor = ProcessSupervisor::new();
    assert_eq!(supervisor.status(), ProcessState::NotStarted);
    assert_eq!(supervisor.handle(), None);
}

#[test]
fn spawned_process_is_held_while_running() {
    let supervisor = running(4242);
    assert_eq!(supervisor.status(), ProcessState::Running);
    let held = supervisor.handle().unwrap();
    assert_eq!(held.pid, 4242);
    assert_eq!(held.working_dir, "/srv/app");
    assert_eq!(held.env.len(), 2);
}

#[test]
fn stop_hands_the_process_over_for_termination() {
    let mut supervisor = running(99);
    assert_eq!(
        supervisor.handle_event(SupervisorEvent::StopRequested),
        SupervisorAction::Terminate(handle(99))
    );
    assert_eq!(supervisor.status(), ProcessState::Stopped);
    assert_eq!(supervisor.handle(), None);
}

#[test]
fn stop_reply_says_how_the_termination_went() {
    assert_eq!(stop_reply(None), Ok("Backend stopped".to_string()));
    assert_eq!(stop_reply(None), Ok(STOPPED.to_string()));
    assert_eq!(
        stop_reply(Some("No such process")),
        Err("Failed to stop backend: No such process".to_string())
    );
    assert_eq!(stop_reply(Some("")), Err("Failed to stop backend: ".to_string()));
}

#[test]
fn spawn_failure_is_reported_and_not_retried() {
    let mut supervisor = ProcessSupervisor::new();
    supervisor.handle_event(SupervisorEvent::StartRequested);
    assert_eq!(
        supervisor.handle_event(SupervisorEvent::SpawnFailed("ruby: not found".to_string())),
        SupervisorAction::Reply(Err("Failed to start backend: ruby: not found".to_string()))
    );
    assert_eq!(supervisor.status(), ProcessState::Failed);
    assert_eq!(supervisor.handle(), None);
    assert_eq!(supervisor.handle_event(SupervisorEvent::ChildExited), SupervisorAction::Ignore);
    assert_eq!(supervisor.status(), ProcessState::Failed);
}

#[test]
fn unexpected_exit_fails_the_process() {
    let mut supervisor = running(5);
    assert_eq!(supervisor.handle_event(SupervisorEvent::ChildExited), SupervisorAction::Ignore);
    assert_eq!(supervisor.status(), ProcessState::Failed);
    assert_eq!(supervisor.handle(), None);

    let mut starting = ProcessSupervisor::new();
    starting.handle_event(SupervisorEvent::StartRequested);
    assert_eq!(starting.handle_event(SupervisorEvent::ChildExited), SupervisorAction::Ignore);
    assert_eq!(starting.status(), ProcessState::Failed);

    let mut idle = ProcessSupervisor::new();
    assert_eq!(idle.handle_event(SupervisorEvent::ChildExited), SupervisorAction::Ignore);
    assert_eq!(idle.status(), ProcessState::NotStarted);
}

#[test]
fn new_start_is_launched_after_stop_and_after_failure() {
    let mut stopped = running(1);
    stopped.handle_event(SupervisorEvent::StopRequested);
    assert_eq!(stopped.handle_event(SupervisorEvent::StartRequested), SupervisorAction::Launch);
    assert_eq!(stopped.status(), ProcessState::Starting);
    assert_eq!(
        stopped.handle_event(SupervisorEvent::Spawned(handle(2))),
        SupervisorAction::Reply(Ok(STARTED.to_string()))
    );
    assert_eq!(stopped.handle().unwrap().pid, 2);

    let mut failed = running(1);
    failed.handle_event(SupervisorEvent::ChildExited);
    assert_eq!(failed.handle_event(SupervisorEvent::StartRequested), SupervisorAction::Launch);
    assert_eq!(failed.status(), ProcessState::Starting);
}

#[test]
fn reports_that_nothing_asked_for_change_nothing() {
    let mut idle = ProcessSupervisor::new();
    assert_eq!(
        idle.handle_event(SupervisorEvent::SpawnFailed("late".to_string())),
        SupervisorAction::Ignore
    );
    assert_eq!(idle.status(), ProcessState::NotStarted);
    assert_eq!(
        idle.handle_event(SupervisorEvent::Spawned(handle(8))),
        SupervisorAction::Terminate(handle(8))
    );
    assert_eq!(idle.status(), ProcessState::NotStarted);
    assert_eq!(idle.handle(), None);

    let mut busy = running(3);
    assert_eq!(
        busy.handle_event(SupervisorEvent::Spawned(handle(4))),
        SupervisorAction::Terminate(handle(4))
    );
    assert_eq!(busy.status(), ProcessState::Running);
    assert_eq!(busy.handle().unwrap().pid, 3);
    assert_eq!(
        busy.handle_event(SupervisorEvent::SpawnFailed("late".to_string())),
        SupervisorAction::Ignore
    );
    assert_eq!(busy.status(), ProcessState::Running);
}
