//! The lifecycle controller: which step of startup comes next, what a failure
//! of a step means, and what an exit request leads to. The controller decides;
//! its caller performs each action and reports back what happened.

use vstd::prelude::*;
use crate::registry::{after_take, taken, ProcessSlot};

verus! {

/// The title given to the main window once the backend runs.
pub fn window_title() -> (title: &'static str)
    ensures
        title@ == "Messages Exporter"@,
{
    "Messages Exporter"
}

/// The steps of startup, in the order in which they are performed.
#[derive(Clone, Copy, Debug, PartialEq, Eq, Structural)]
pub enum StartupStep {
    /// Generate the credential and launch the backend with it.
    Launch,
    /// Publish the session descriptor.
    PublishSession,
    /// Publish the handle of the launched process.
    PublishProcess,
    /// Set the title of the main window, if there is one.
    ConfigureWindow,
}

/// One of the two slots of the registry.
#[derive(Clone, Copy, Debug, PartialEq, Eq, Structural)]
pub enum Slot {
    Session,
    Process,
}

/// Why startup was aborted.
#[derive(Clone, Copy, Debug, PartialEq, Eq, Structural)]
pub enum StartupError {
    /// The backend process could not be created.
    SpawnFailed,
    /// The lock of a slot could not be acquired.
    LockUnavailable(Slot),
    /// The main window could not be configured.
    WindowSetupFailed,
}

/// Where the supervisor stands.
#[derive(Clone, Copy, Debug, PartialEq, Eq, Structural)]
pub enum Phase {
    /// Startup is under way; the step is the one being performed.
    Starting(StartupStep),
    /// The backend runs and the session is published.
    Running,
    /// An exit was requested and the process slot is being emptied.
    ShuttingDown,
    /// Nothing is supervised any more.
    Stopped,
}

/// What the caller reports to the controller.
#[derive(Clone, Copy, Debug, PartialEq, Eq, Structural)]
pub enum Event {
    /// The step in progress was performed.
    StepSucceeded,
    /// The step in progress failed.
    StepFailed,
    /// The application is about to exit.
    ExitRequested,
    /// The process slot was taken from, and held a handle or not.
    ProcessTaken(bool),
}

/// What the controller asks of its caller.
#[derive(Clone, Copy, Debug, PartialEq, Eq, Structural)]
pub enum Action {
    /// Perform this step of startup and report its outcome.
    Perform(StartupStep),
    /// Give startup up with this error.
    Abort(StartupError),
    /// Take the handle from the process slot and report whether there was one.
    TakeProcess,
    /// Send the termination signal to the handle just taken, once, and do not
    /// wait for the process to end.
    Terminate,
    /// Nothing is to be done.
    Nothing,
}

/// The step that follows `step`, if any.
pub open spec fn step_after(step: StartupStep) -> Option<StartupStep> {
    match step {
        StartupStep::Launch => Some(StartupStep::PublishSession),
        StartupStep::PublishSession => Some(StartupStep::PublishProcess),
        StartupStep::PublishProcess => Some(StartupStep::ConfigureWindow),
        StartupStep::ConfigureWindow => None,
    }
}

/// The error with which startup is aborted when `step` fails.
pub open spec fn failure_of(step: StartupStep) -> StartupError {
    match step {
        StartupStep::Launch => StartupError::SpawnFailed,
        StartupStep::PublishSession => StartupError::LockUnavailable(Slot::Session),
        StartupStep::PublishProcess => StartupError::LockUnavailable(Slot::Process),
        StartupStep::ConfigureWindow => StartupError::WindowSetupFailed,
    }
}

/// The phase that follows `phase` on `event`, and what is to be done then.
///
/// A step that succeeds leads to the next step, the last one to `Running`. A
/// step that fails ends startup: there is no state between `Starting` and
/// `Running`. An exit request is served in every phase, by the emptying of the
/// process slot; the termination signal is asked for only when the slot held
/// a handle. Every other report leaves the phase as it is.
pub open spec fn step(phase: Phase, event: Event) -> (Phase, Action) {
    match (phase, event) {
        (_, Event::ExitRequested) => (Phase::ShuttingDown, Action::TakeProcess),
        (Phase::Starting(current), Event::StepSucceeded) => match step_after(current) {
            Some(next) => (Phase::Starting(next), Action::Perform(next)),
            None => (Phase::Running, Action::Nothing),
        },
        (Phase::Starting(current), Event::StepFailed) => (
            Phase::Stopped,
            Action::Abort(failure_of(current)),
        ),
        (Phase::ShuttingDown, Event::ProcessTaken(present)) => (
            Phase::Stopped,
            if present {
                Action::Terminate
            } else {
                Action::Nothing
            },
        ),
        _ => (phase, Action::Nothing),
    }
}

/// The phase reached from `phase` by `events`, taken in their order.
pub open spec fn phase_after(phase: Phase, events: Seq<Event>) -> Phase
    decreases events.len(),
{
    if events.len() == 0 {
        phase
    } else {
        phase_after(step(phase, events[0]).0, events.drop_first())
    }
}

/// Whether `phase` is one in which the supervisor has begun to stop or has
/// stopped.
pub open spec fn is_closing(phase: Phase) -> bool {
    phase is ShuttingDown || phase is Stopped
}

/// What a shutdown does to a supervisor in `phase` whose process slot holds
/// `slot`: the phase after it, the handle to terminate if any, and what the
/// slot holds afterwards. Whatever the phase, the supervisor is stopped, the
/// handle that the slot held is handed out, and the slot is empty.
pub open spec fn shutdown_of<P>(phase: Phase, slot: Option<P>) -> (Phase, Option<P>, Option<P>) {
    (Phase::Stopped, taken(slot), after_take(slot))
}

impl StartupError {
    /// The text of the failure, as a sequence of characters.
    pub open spec fn message_of(self) -> Seq<char> {
        match self {
            StartupError::SpawnFailed => "Failed to launch backend process"@,
            StartupError::LockUnavailable(Slot::Session) => "Session lock failed"@,
            StartupError::LockUnavailable(Slot::Process) => "Child lock failed"@,
            StartupError::WindowSetupFailed => "Window setup failed"@,
        }
    }

    /// The text with which startup is given up.
    pub fn message(&self) -> (text: &'static str)
        ensures
            text@ == self.message_of(),
    {
        match self {
            StartupError::SpawnFailed => "Failed to launch backend process",
            StartupError::LockUnavailable(Slot::Session) => "Session lock failed",
            StartupError::LockUnavailable(Slot::Process) => "Child lock failed",
            StartupError::WindowSetupFailed => "Window setup failed",
        }
    }
}

impl Phase {
    /// The phase in which every supervisor begins, with the first action.
    pub fn begin() -> (start: (Phase, Action))
        ensures
            start == (Phase::Starting(StartupStep::Launch), Action::Perform(StartupStep::Launch)),
    {
        (Phase::Starting(StartupStep::Launch), Action::Perform(StartupStep::Launch))
    }

    /// The phase that follows on `event`, and what the caller is to do then.
    pub fn on_event(self, event: Event) -> (next: (Phase, Action))
        ensures
            next == step(self, event),
    {
        match event {
            Event::ExitRequested => (Phase::ShuttingDown, Action::TakeProcess),
            Event::StepSucceeded => match self {
                Phase::Starting(StartupStep::Launch) => (
                    Phase::Starting(StartupStep::PublishSession),
                    Action::Perform(StartupStep::PublishSession),
                ),
                Phase::Starting(StartupStep::PublishSession) => (
                    Phase::Starting(StartupStep::PublishProcess),
                    Action::Perform(StartupStep::PublishProcess),
                ),
                Phase::Starting(StartupStep::PublishProcess) => (
                    Phase::Starting(StartupStep::ConfigureWindow),
                    Action::Perform(StartupStep::ConfigureWindow),
                ),
                Phase::Starting(StartupStep::ConfigureWindow) => (Phase::Running, Action::Nothing),
                _ => (self, Action::Nothing),
            },
            Event::StepFailed => match self {
                Phase::Starting(current) => {
                    let error = match current {
                        StartupStep::Launch => StartupError::SpawnFailed,
                        StartupStep::PublishSession => StartupError::LockUnavailable(Slot::Session),
                        StartupStep::PublishProcess => StartupError::LockUnavailable(Slot::Process),
                        StartupStep::ConfigureWindow => StartupError::WindowSetupFailed,
                    };
                    (Phase::Stopped, Action::Abort(error))
                },
                _ => (self, Action::Nothing),
            },
            Event::ProcessTaken(present) => match self {
                Phase::ShuttingDown => if present {
                    (Phase::Stopped, Action::Terminate)
                } else {
                    (Phase::Stopped, Action::Nothing)
                },
                _ => (self, Action::Nothing),
            },
        }
    }
}

/// Shuts the supervisor down, in whatever phase it is: empties the process
/// slot and hands out the handle to which the termination signal is owed, if
/// the slot held one. The caller sends that signal once and does not wait for
/// the process to end.
pub fn shutdown<P>(phase: Phase, slot: &mut ProcessSlot<P>) -> (outcome: (Phase, Option<P>))
    ensures
        (outcome.0, outcome.1, final(slot)@) == shutdown_of(phase, old(slot)@),
{
    let (emptying, _) = phase.on_event(Event::ExitRequested);
    let handle = slot.take_process();
    let (after, asked) = emptying.on_event(Event::ProcessTaken(handle.is_some()));
    match asked {
        Action::Terminate => (after, handle),
        _ => (after, None),
    }
}

/// Startup reaches `Running` only by the success of its last step, and a
/// failure of any step leads to `Stopped` with that step's error: there is no
/// phase in which startup has half succeeded.
pub proof fn lemma_startup_all_or_nothing(phase: Phase, event: Event)
    ensures
        step(phase, event).0 == Phase::Running ==> phase == Phase::Running || (phase
            == Phase::Starting(StartupStep::ConfigureWindow) && event == Event::StepSucceeded),
        forall|current: StartupStep| #[trigger]
            step(Phase::Starting(current), Event::StepFailed) == (
                Phase::Stopped,
                Action::Abort(failure_of(current)),
            ),
        !(event is ExitRequested) ==> step(Phase::Stopped, event) == (
            Phase::Stopped,
            Action::Nothing,
        ),
{
}

/// How many steps of startup are left when `step` is the one in progress,
/// that one included.
pub open spec fn steps_left(step: StartupStep) -> nat {
    match step {
        StartupStep::Launch => 4,
        StartupStep::PublishSession => 3,
        StartupStep::PublishProcess => 2,
        StartupStep::ConfigureWindow => 1,
    }
}

/// Whether `events` holds nothing but reports on steps of startup.
pub open spec fn only_step_reports(events: Seq<Event>) -> bool {
    forall|i: int|
        0 <= i < events.len() ==> (#[trigger] events[i]) == Event::StepSucceeded || events[i]
            == Event::StepFailed
}

/// Reports on steps of startup move neither a running nor a stopped
/// supervisor.
pub proof fn lemma_reports_leave_settled(phase: Phase, events: Seq<Event>)
    requires
        only_step_reports(events),
        phase == Phase::Running || phase == Phase::Stopped,
    ensures
        phase_after(phase, events) == phase,
    decreases events.len(),
{
    if events.len() > 0 {
        let rest = events.drop_first();
        assert forall|i: int| 0 <= i < rest.len() implies (#[trigger] rest[i])
            == Event::StepSucceeded || rest[i] == Event::StepFailed by {
            assert(rest[i] == events[i + 1]);
        }
        assert(events[0] == Event::StepSucceeded || events[0] == Event::StepFailed);
        lemma_reports_leave_settled(phase, rest);
    }
}

/// Startup ends in `Running` exactly when every step that was left succeeded,
/// one after the other: the first failure ends it for good, and while steps
/// are left the supervisor is not running.
pub proof fn lemma_running_iff_every_step_succeeds(current: StartupStep, events: Seq<Event>)
    requires
        only_step_reports(events),
    ensures
        phase_after(Phase::Starting(current), events) == Phase::Running <==> (events.len()
            >= steps_left(current) && forall|i: int|
            0 <= i < steps_left(current) ==> (#[trigger] events[i]) == Event::StepSucceeded),
    decreases events.len(),
{
    if events.len() > 0 {
        let rest = events.drop_first();
        assert forall|i: int| 0 <= i < rest.len() implies (#[trigger] rest[i])
            == Event::StepSucceeded || rest[i] == Event::StepFailed by {
            assert(rest[i] == events[i + 1]);
        }
        assert(events[0] == Event::StepSucceeded || events[0] == Event::StepFailed);
        if events[0] == Event::StepFailed {
            lemma_reports_leave_settled(Phase::Stopped, rest);
        } else {
            match step_after(current) {
                Some(next) => {
                    lemma_running_iff_every_step_succeeds(next, rest);
                    if phase_after(Phase::Starting(next), rest) == Phase::Running {
                        assert forall|i: int| 0 <= i < steps_left(current) implies (
                        #[trigger] events[i]) == Event::StepSucceeded by {
                            if i > 0 {
                                assert(rest[i - 1] == events[i]);
                            }
                        }
                    }
                    if events.len() >= steps_left(current) && forall|i: int|
                        0 <= i < steps_left(current) ==> (#[trigger] events[i])
                            == Event::StepSucceeded {
                        assert forall|i: int| 0 <= i < steps_left(next) implies (#[trigger] rest[i])
                            == Event::StepSucceeded by {
                            assert(rest[i] == events[i + 1]);
                        }
                    }
                },
                None => {
                    lemma_reports_leave_settled(Phase::Running, rest);
                },
            }
        }
    }
}

/// A shutdown is what the controller decides on an exit request followed by
/// the report of what the process slot held: the slot is taken from, the
/// termination signal is asked for exactly when it held a handle, and the
/// supervisor is stopped.
pub proof fn lemma_shutdown_follows_steps<P>(phase: Phase, slot: Option<P>)
    ensures
        step(phase, Event::ExitRequested) == (Phase::ShuttingDown, Action::TakeProcess),
        step(Phase::ShuttingDown, Event::ProcessTaken(taken(slot) is Some)).0 == shutdown_of(
            phase,
            slot,
        ).0,
        step(Phase::ShuttingDown, Event::ProcessTaken(taken(slot) is Some)).1 == Action::Terminate
            <==> shutdown_of(phase, slot).1 is Some,
        step(Phase::ShuttingDown, Event::ProcessTaken(taken(slot) is Some)).1 == Action::Nothing
            <==> shutdown_of(phase, slot).1 is None,
{
}

/// A second shutdown, right after a first, does nothing: it hands out no
/// handle, so no signal is sent, and it leaves phase and slot as the first
/// left them.
pub proof fn lemma_shutdown_twice<P>(phase: Phase, slot: Option<P>)
    ensures
        ({
            let first = shutdown_of(phase, slot);
            shutdown_of(first.0, first.2) == (first.0, None::<P>, first.2)
        }),
{
}

/// The publication of a process handle is asked for once at most: only as the
/// step that follows the publication of the session, and never by a supervisor
/// that has begun to stop. So a handle that was taken is not stored again.
pub proof fn lemma_publish_process_once(phase: Phase, event: Event)
    ensures
        step(phase, event).1 == Action::Perform(StartupStep::PublishProcess) ==> phase
            == Phase::Starting(StartupStep::PublishSession) && event == Event::StepSucceeded,
        is_closing(phase) ==> is_closing(step(phase, event).0) && !(step(phase, event).1
            is Perform),
{
}

/// A supervisor that has begun to stop never starts or runs again, whatever
/// it is told.
pub proof fn lemma_no_restart(phase: Phase, events: Seq<Event>)
    requires
        is_closing(phase),
    ensures
        is_closing(phase_after(phase, events)),
    decreases events.len(),
{
    if events.len() > 0 {
        lemma_no_restart(step(phase, events[0]).0, events.drop_first());
    }
}

} // verus!
