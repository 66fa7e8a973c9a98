//! The life cycle of the backend process. The supervisor owns the handle of
//! at most one process and decides what each request and each report leads
//! to; spawning and terminating are done outside, on its word.

use vstd::prelude::*;
use vstd::string::*;
use crate::invocation::pair_texts;

verus! {

/// Tells the caller of a start that a process is there already.
pub const ALREADY_RUNNING: &'static str = "Backend is already running";

/// Tells the caller of a start that the process was spawned.
pub const STARTED: &'static str = "Backend started";

/// Tells the caller of a stop that there was nothing to stop.
pub const NOT_RUNNING: &'static str = "Backend was not running";

/// Tells the caller of a stop that the process was terminated.
pub const STOPPED: &'static str = "Backend stopped";

/// Opens the report of a spawn that failed.
pub const START_FAILED: &'static str = "Failed to start backend: ";

/// Opens the report of a termination that failed.
pub const STOP_FAILED: &'static str = "Failed to stop backend: ";

/// Where the backend process stands.
#[derive(Clone, Copy, Debug, PartialEq, Eq, Structural)]
pub enum ProcessState {
    NotStarted,
    Starting,
    Running,
    Stopped,
    Failed,
}

/// A live backend process: its identifier, the root it runs in and the
/// environment it was given.
#[derive(Clone, Debug, PartialEq, Eq)]
pub struct BackendProcessHandle {
    pub pid: u32,
    pub working_dir: String,
    pub env: Vec<(String, String)>,
}

/// What the contracts see of a `BackendProcessHandle`.
pub struct HandleView {
    pub pid: u32,
    pub working_dir: Seq<char>,
    pub env: Seq<(Seq<char>, Seq<char>)>,
}

/// What reaches the supervisor.
#[derive(Clone, Debug, PartialEq, Eq)]
pub enum SupervisorEvent {
    /// Someone asks for the backend to be started.
    StartRequested,
    /// The process asked for was spawned.
    Spawned(BackendProcessHandle),
    /// The process asked for could not be spawned; the text says why.
    SpawnFailed(String),
    /// Someone asks for the backend to be stopped.
    StopRequested,
    /// The process ended without having been asked to.
    ChildExited,
}

/// What the contracts see of a `SupervisorEvent`.
pub enum EventView {
    StartRequested,
    Spawned(HandleView),
    SpawnFailed(Seq<char>),
    StopRequested,
    ChildExited,
}

/// What the supervisor wants done.
#[derive(Debug, PartialEq, Eq)]
pub enum SupervisorAction {
    /// Nothing.
    Ignore,
    /// Prepare the database, spawn the backend, and report how that went.
    Launch,
    /// Terminate this process; the supervisor no longer holds it.
    Terminate(BackendProcessHandle),
    /// Tell the caller: a status on success, the fault otherwise.
    Reply(Result<String, String>),
}

/// What the contracts see of a `SupervisorAction`.
pub enum ActionView {
    Ignore,
    Launch,
    Terminate(HandleView),
    Reply(Result<Seq<char>, Seq<char>>),
}

/// What the contracts see of a `ProcessSupervisor`.
pub struct SupervisorView {
    pub state: ProcessState,
    pub handle: Option<HandleView>,
}

/// Owns the backend process of one application instance.
pub struct ProcessSupervisor {
    state: ProcessState,
    handle: Option<BackendProcessHandle>,
}

impl View for BackendProcessHandle {
    type V = HandleView;

    open spec fn view(&self) -> HandleView {
        HandleView { pid: self.pid, working_dir: self.working_dir@, env: pair_texts(self.env@) }
    }
}

impl View for SupervisorEvent {
    type V = EventView;

    open spec fn view(&self) -> EventView {
        match self {
            SupervisorEvent::StartRequested => EventView::StartRequested,
            SupervisorEvent::Spawned(handle) => EventView::Spawned(handle@),
            SupervisorEvent::SpawnFailed(reason) => EventView::SpawnFailed(reason@),
            SupervisorEvent::StopRequested => EventView::StopRequested,
            SupervisorEvent::ChildExited => EventView::ChildExited,
        }
    }
}

/// What the contracts see of a reply.
pub open spec fn reply_view(reply: Result<String, String>) -> Result<Seq<char>, Seq<char>> {
    match reply {
        Ok(status) => Ok(status@),
        Err(fault) => Err(fault@),
    }
}

impl View for SupervisorAction {
    type V = ActionView;

    open spec fn view(&self) -> ActionView {
        match self {
            SupervisorAction::Ignore => ActionView::Ignore,
            SupervisorAction::Launch => ActionView::Launch,
            SupervisorAction::Terminate(handle) => ActionView::Terminate(handle@),
            SupervisorAction::Reply(reply) => ActionView::Reply(reply_view(*reply)),
        }
    }
}

impl SupervisorView {
    /// Whether a process is being started or is running.
    pub open spec fn is_active(self) -> bool {
        self.state == ProcessState::Starting || self.state == ProcessState::Running
    }

    /// A handle is held exactly while the process is running.
    pub open spec fn is_consistent(self) -> bool {
        self.handle is Some <==> self.state == ProcessState::Running
    }
}

/// The supervisor before anything was asked of it.
pub open spec fn initial() -> SupervisorView {
    SupervisorView { state: ProcessState::NotStarted, handle: None }
}

/// What `event` leads to in `before`: the supervisor afterwards, and what
/// is to be done.
///
/// A start is launched only where no process is being started or is
/// running. A stop gives up the handle before the termination is tried, so
/// that a termination that fails leaves no handle behind. A process that
/// ends by itself, or that cannot be spawned, leaves the supervisor failed;
/// nothing is started again without a request. A report that nothing asked
/// for changes nothing, and a process that nothing asked for is terminated.
pub open spec fn transition(before: SupervisorView, event: EventView) -> (
    SupervisorView,
    ActionView,
) {
    match event {
        EventView::StartRequested => if before.is_active() {
            (before, ActionView::Reply(Ok(ALREADY_RUNNING@)))
        } else {
            (SupervisorView { state: ProcessState::Starting, handle: None }, ActionView::Launch)
        },
        EventView::Spawned(handle) => if before.state == ProcessState::Starting {
            (
                SupervisorView { state: ProcessState::Running, handle: Some(handle) },
                ActionView::Reply(Ok(STARTED@)),
            )
        } else {
            (before, ActionView::Terminate(handle))
        },
        EventView::SpawnFailed(reason) => if before.state == ProcessState::Starting {
            (
                SupervisorView { state: ProcessState::Failed, handle: None },
                ActionView::Reply(Err(START_FAILED@ + reason)),
            )
        } else {
            (before, ActionView::Ignore)
        },
        EventView::StopRequested => match before.handle {
            Some(handle) => (
                SupervisorView { state: ProcessState::Stopped, handle: None },
                ActionView::Terminate(handle),
            ),
            None => (before, ActionView::Reply(Ok(NOT_RUNNING@))),
        },
        EventView::ChildExited => if before.is_active() {
            (SupervisorView { state: ProcessState::Failed, handle: None }, ActionView::Ignore)
        } else {
            (before, ActionView::Ignore)
        },
    }
}

/// What the caller of a stop is told once the termination was tried:
/// `fault` is `None` where it succeeded.
pub open spec fn stop_reply_text(fault: Option<Seq<char>>) -> Result<Seq<char>, Seq<char>> {
    match fault {
        None => Ok(STOPPED@),
        Some(reason) => Err(STOP_FAILED@ + reason),
    }
}

/// Says how a termination went, in the words the caller of the stop gets.
pub fn stop_reply(fault: Option<&str>) -> (reply: Result<String, String>)
    ensures
        reply_view(reply) == stop_reply_text(
            match fault {
                Some(reason) => Some(reason@),
                None => None,
            },
        ),
{
    match fault {
        None => Ok(STOPPED.to_string()),
        Some(reason) => {
            let mut text = STOP_FAILED.to_string();
            text.append(reason);
            Err(text)
        },
    }
}

impl View for ProcessSupervisor {
    type V = SupervisorView;

    closed spec fn view(&self) -> SupervisorView {
        SupervisorView {
            state: self.state,
            handle: match self.handle {
                Some(handle) => Some(handle@),
                None => None,
            },
        }
    }
}

impl ProcessSupervisor {
    #[verifier::type_invariant]
    spec fn handle_while_running(&self) -> bool {
        self.handle is Some <==> self.state == ProcessState::Running
    }

    /// A supervisor that has started nothing yet.
    pub fn new() -> (fresh: ProcessSupervisor)
        ensures
            fresh@ == initial(),
    {
        ProcessSupervisor { state: ProcessState::NotStarted, handle: None }
    }

    /// Where the process stands. Nothing is asked of the process itself.
    pub fn status(&self) -> (state: ProcessState)
        ensures
            state == self@.state,
            self@.is_consistent(),
    {
        proof {
            use_type_invariant(self);
        }
        self.state
    }

    /// The process that is running, if one is.
    pub fn handle(&self) -> (handle: Option<&BackendProcessHandle>)
        ensures
            self@.is_consistent(),
            match handle {
                Some(held) => self@.handle == Some(held@),
                None => self@.handle is None,
            },
    {
        proof {
            use_type_invariant(self);
        }
        self.handle.as_ref()
    }

    /// Takes in `event` and says what is to be done about it.
    pub fn handle_event(&mut self, event: SupervisorEvent) -> (action: SupervisorAction)
        ensures
            (final(self)@, action@) == transition(old(self)@, event@),
            final(self)@.is_consistent(),
    {
        proof {
            use_type_invariant(&*self);
        }
        let mut current = ProcessSupervisor::new();
        std::mem::swap(self, &mut current);
        let ProcessSupervisor { state, handle } = current;
        let active = match state {
            ProcessState::Starting | ProcessState::Running => true,
            _ => false,
        };
        let starting = match state {
            ProcessState::Starting => true,
            _ => false,
        };
        match event {
            SupervisorEvent::StartRequested => {
                if active {
                    *self = ProcessSupervisor { state, handle };
                    SupervisorAction::Reply(Ok(ALREADY_RUNNING.to_string()))
                } else {
                    *self = ProcessSupervisor { state: ProcessState::Starting, handle: None };
                    SupervisorAction::Launch
                }
            },
            SupervisorEvent::Spawned(spawned) => {
                if starting {
                    *self = ProcessSupervisor {
                        state: ProcessState::Running,
                        handle: Some(spawned),
                    };
                    SupervisorAction::Reply(Ok(STARTED.to_string()))
                } else {
                    *self = ProcessSupervisor { state, handle };
                    SupervisorAction::Terminate(spawned)
                }
            },
            SupervisorEvent::SpawnFailed(reason) => {
                if starting {
                    *self = ProcessSupervisor { state: ProcessState::Failed, handle: None };
                    let mut text = START_FAILED.to_string();
                    text.append(reason.as_str());
                    SupervisorAction::Reply(Err(text))
                } else {
                    *self = ProcessSupervisor { state, handle };
                    SupervisorAction::Ignore
                }
            },
            SupervisorEvent::StopRequested => {
                match handle {
                    Some(held) => {
                        *self = ProcessSupervisor { state: ProcessState::Stopped, handle: None };
                        SupervisorAction::Terminate(held)
                    },
                    None => {
                        *self = ProcessSupervisor { state, handle: None };
                        SupervisorAction::Reply(Ok(NOT_RUNNING.to_string()))
                    },
                }
            },
            SupervisorEvent::ChildExited => {
                if active {
                    *self = ProcessSupervisor { state: ProcessState::Failed, handle: None };
                } else {
                    *self = ProcessSupervisor { state, handle };
                }
                SupervisorAction::Ignore
            },
        }
    }
}

/// No event breaks the rule that a handle is held exactly while the
/// process is running.
pub proof fn lemma_transition_keeps_consistent(before: SupervisorView, event: EventView)
    requires
        before.is_consistent(),
    ensures
        transition(before, event).0.is_consistent(),
{
}

/// A process is launched only on a request to start, and only where none is
/// being started or is running: there are never two.
pub proof fn lemma_launch_only_when_idle(before: SupervisorView, event: EventView)
    requires
        before.is_consistent(),
        transition(before, event).1 == ActionView::Launch,
    ensures
        event == EventView::StartRequested,
        !before.is_active(),
        before.handle is None,
        transition(before, event).0.state == ProcessState::Starting,
{
}

/// Of two requests to start with nothing between them, the second is told
/// that the backend is running already: it launches nothing and changes
/// nothing.
pub proof fn lemma_second_start_already_running(before: SupervisorView)
    ensures
        ({
            let first = transition(before, EventView::StartRequested);
            let second = transition(first.0, EventView::StartRequested);
            &&& first.0.is_active()
            &&& second.0 == first.0
            &&& second.1 == ActionView::Reply(Ok(ALREADY_RUNNING@))
        }),
{
}

/// The same holds once the first request was carried out: as long as the
/// process started stays up, a further request to start launches nothing.
pub proof fn lemma_start_after_spawn_already_running(before: SupervisorView, spawned: HandleView)
    requires
        !before.is_active(),
    ensures
        ({
            let asked = transition(before, EventView::StartRequested);
            let running = transition(asked.0, EventView::Spawned(spawned));
            let again = transition(running.0, EventView::StartRequested);
            &&& asked.1 == ActionView::Launch
            &&& running.0 == SupervisorView { state: ProcessState::Running, handle: Some(spawned) }
            &&& running.1 == ActionView::Reply(Ok(STARTED@))
            &&& again.0 == running.0
            &&& again.1 == ActionView::Reply(Ok(ALREADY_RUNNING@))
        }),
{
}

/// A request to stop where no process is held is no fault: the caller is
/// told that nothing was running, and nothing changes.
pub proof fn lemma_stop_when_not_running(before: SupervisorView)
    requires
        before.handle is None,
    ensures
        transition(before, EventView::StopRequested) == (
            before,
            ActionView::Reply(Ok(NOT_RUNNING@)),
        ),
{
}

/// A request to stop leaves no handle behind, whether the termination it
/// leads to succeeds or not; and the process it gives up is the one that
/// was held.
pub proof fn lemma_stop_gives_up_handle(before: SupervisorView)
    ensures
        transition(before, EventView::StopRequested).0.handle is None,
        before.handle matches Some(held) ==> transition(before, EventView::StopRequested) == (
            SupervisorView { state: ProcessState::Stopped, handle: None },
            ActionView::Terminate(held),
        ),
{
}

/// A process that ends by itself, or that cannot be spawned, leaves the
/// supervisor failed, and nothing is launched in its place.
pub proof fn lemma_failure_is_not_retried(before: SupervisorView, reason: Seq<char>)
    requires
        before.is_active(),
    ensures
        transition(before, EventView::ChildExited) == (
            SupervisorView { state: ProcessState::Failed, handle: None },
            ActionView::Ignore,
        ),
        before.state == ProcessState::Starting ==> transition(
            before,
            EventView::SpawnFailed(reason),
        ) == (
            SupervisorView { state: ProcessState::Failed, handle: None },
            ActionView::Reply(Err(START_FAILED@ + reason)),
        ),
{
}

} // verus!
