//! The lifecycle of the companion daemon: starting it and waiting until it
//! is ready, stopping it gracefully, and restarting it.
//!
//! The manager decides; the program around it acts. Each request and each
//! event is answered by the action to perform next, and the program reports
//! what came of the action as the next event. One operation runs at a time:
//! a request that arrives while another is in flight is told to wait.

use crate::text::{contains_text, occurs_in};
use vstd::prelude::*;

verus! {

/// The number of seconds the daemon has to announce that it is ready.
pub const STARTUP_SECONDS: u64 = 10;

/// The number of seconds the daemon has to exit after an interrupt.
pub const SHUTDOWN_SECONDS: u64 = 10;

/// What the daemon writes to its diagnostic output once it accepts
/// connections.
pub open spec fn ready_marker() -> Seq<char> {
    "Listening on socket"@
}

/// A line of diagnostic output that announces readiness: one that holds
/// the marker.
pub open spec fn is_ready_line(line: Seq<char>) -> bool {
    occurs_in(line, ready_marker())
}

/// Whether a line of diagnostic output announces readiness.
pub fn announces_readiness(line: &str) -> (r: bool)
    ensures
        r == is_ready_line(line@),
{
    contains_text(line, "Listening on socket")
}

/// The program that is run as the daemon.
pub fn daemon_program() -> (r: &'static str)
    ensures
        r@ == "signal-cli"@,
{
    "signal-cli"
}

/// The arguments of the daemon: the mode, the socket to serve, and the
/// flags that keep received messages off the output and attachments off
/// the disk.
pub open spec fn arguments_for(socket: Seq<char>) -> Seq<Seq<char>> {
    seq![
        "daemon"@,
        "--socket"@,
        socket,
        "--no-receive-stdout"@,
        "--ignore-attachments"@,
    ]
}

/// The arguments of the daemon for the socket at `socket`.
pub fn daemon_arguments(socket: &str) -> (r: Vec<String>)
    ensures
        crate::json::texts(r@) == arguments_for(socket@),
{
    let mut r: Vec<String> = Vec::new();
    r.push("daemon".to_owned());
    r.push("--socket".to_owned());
    r.push(socket.to_owned());
    r.push("--no-receive-stdout".to_owned());
    r.push("--ignore-attachments".to_owned());
    assert(crate::json::texts(r@) =~= arguments_for(socket@));
    r
}

/// Why an operation on the daemon failed.
#[derive(Clone, Copy, Debug, PartialEq, Eq)]
pub enum DaemonError {
    /// The daemon could not be spawned.
    Spawn,
    /// The daemon did not announce readiness within the startup budget and
    /// was killed.
    NotReadyInTime,
    /// The daemon's diagnostic output could not be read, and the daemon was
    /// killed.
    Unreadable,
    /// The process id does not fit the type that a signal is sent to.
    ProcessId,
    /// The interrupt could not be sent.
    Interrupt,
    /// The daemon could not be killed.
    Kill,
}

/// How an operation ended.
#[derive(Clone, Copy, Debug, PartialEq, Eq)]
pub enum Outcome {
    /// The daemon runs and is ready.
    Started,
    /// The daemon is gone.
    Stopped,
    /// The operation failed.
    Failed(DaemonError),
}

/// Where the manager stands.
#[derive(Clone, Copy, Debug, PartialEq, Eq)]
pub enum Phase {
    /// No daemon is owned.
    Stopped,
    /// A daemon is being spawned.
    Spawning,
    /// The daemon is spawned and has not announced readiness yet.
    AwaitingReady,
    /// The start has failed and the daemon is being killed.
    Failing(DaemonError),
    /// The daemon runs and is ready.
    Running,
    /// An interrupt is being sent to the daemon.
    Interrupting,
    /// The daemon was interrupted and has not exited yet.
    AwaitingExit,
    /// The daemon outlived the shutdown budget and is being killed.
    KillingStale,
}

/// The four states of the lifecycle.
#[derive(Clone, Copy, Debug, PartialEq, Eq)]
pub enum DaemonState {
    Stopped,
    Starting,
    Running,
    Stopping,
}

/// What the program around the manager does next.
#[derive(Clone, Copy, Debug, PartialEq, Eq)]
pub enum DaemonAction {
    /// Spawn the daemon with its standard input closed and its diagnostic
    /// output captured; report `Spawned` or `SpawnFailed`.
    Spawn,
    /// Read the next line of diagnostic output, racing what is left of the
    /// startup budget; report `Line`, `ReadFailed` or `StartupTimeout`.
    ReadLine,
    /// The output has ended: wait out the startup budget and report
    /// `StartupTimeout`.
    AwaitTimeout,
    /// Kill the daemon; report `Killed` or `KillFailed`.
    Kill,
    /// Send an interrupt to the process with this id; report `Interrupted`
    /// or `InterruptFailed`.
    Interrupt(i32),
    /// Wait for the daemon to exit, racing the shutdown budget; report
    /// `Exited` or `ShutdownTimeout`.
    AwaitExit,
    /// The operation is over.
    Done(Outcome),
    /// Another operation is in flight: ask again when it is over.
    Wait,
    /// The event does not belong to what is in flight: nothing to do.
    Ignore,
}

/// What the program reports to the manager.
#[derive(Debug, Clone, PartialEq, Eq)]
pub enum DaemonEvent {
    Spawned,
    SpawnFailed,
    /// A line of diagnostic output; empty where the output has ended.
    Line(String),
    ReadFailed,
    StartupTimeout,
    Interrupted,
    InterruptFailed,
    Exited,
    ShutdownTimeout,
    Killed,
    KillFailed,
}

/// What a caller asks of the manager. A stop or restart names the id of
/// the daemon's process, or nothing where the process has exited already.
#[derive(Clone, Copy, Debug, PartialEq, Eq)]
pub enum DaemonRequest {
    Start,
    Stop(Option<u32>),
    Restart(Option<u32>),
}

/// The manager's state: where it stands, and whether a start follows the
/// stop that is in flight.
#[derive(Clone, Copy, Debug, PartialEq, Eq)]
pub struct ManagerState {
    pub phase: Phase,
    pub restarting: bool,
}

/// Anything that reaches the manager: a request or an event.
pub ghost enum DaemonInput {
    Request(DaemonRequest),
    Event(DaemonEvent),
}

/// The lifecycle state that a phase belongs to.
pub open spec fn state_of(phase: Phase) -> DaemonState {
    match phase {
        Phase::Stopped => DaemonState::Stopped,
        Phase::Spawning | Phase::AwaitingReady | Phase::Failing(_) => DaemonState::Starting,
        Phase::Running => DaemonState::Running,
        Phase::Interrupting | Phase::AwaitingExit | Phase::KillingStale => DaemonState::Stopping,
    }
}

/// Whether a daemon process is owned in this phase.
pub open spec fn owns_process(phase: Phase) -> bool {
    !(phase is Stopped) && !(phase is Spawning)
}

/// Whether an operation is in flight in this phase.
pub open spec fn in_flight(phase: Phase) -> bool {
    !(phase is Stopped) && !(phase is Running)
}

/// The manager at rest in `phase`.
pub open spec fn at(phase: Phase) -> ManagerState {
    ManagerState { phase, restarting: false }
}

/// A stop begins: nothing to do where the process has exited already, an
/// error where its id cannot be signalled, else an interrupt.
pub open spec fn begin_stop(pid: Option<u32>, restarting: bool) -> (ManagerState, DaemonAction) {
    match pid {
        None => stop_complete(restarting),
        Some(p) => if p > i32::MAX {
            (at(Phase::Running), DaemonAction::Done(Outcome::Failed(DaemonError::ProcessId)))
        } else {
            (
                ManagerState { phase: Phase::Interrupting, restarting },
                DaemonAction::Interrupt(p as i32),
            )
        },
    }
}

/// The daemon is gone: a restart goes on to spawn the next one, a stop is
/// over.
pub open spec fn stop_complete(restarting: bool) -> (ManagerState, DaemonAction) {
    if restarting {
        (at(Phase::Spawning), DaemonAction::Spawn)
    } else {
        (at(Phase::Stopped), DaemonAction::Done(Outcome::Stopped))
    }
}

/// What a request does. While an operation is in flight every request
/// waits. A start spawns a daemon where none is owned and has nothing to do
/// where one runs. A stop has nothing to do where none is owned. A restart
/// is a stop followed by a start.
pub open spec fn on_request(s: ManagerState, request: DaemonRequest) -> (
    ManagerState,
    DaemonAction,
) {
    match s.phase {
        Phase::Stopped => match request {
            DaemonRequest::Start => (at(Phase::Spawning), DaemonAction::Spawn),
            DaemonRequest::Stop(_) => (s, DaemonAction::Done(Outcome::Stopped)),
            DaemonRequest::Restart(_) => (at(Phase::Spawning), DaemonAction::Spawn),
        },
        Phase::Running => match request {
            DaemonRequest::Start => (s, DaemonAction::Done(Outcome::Started)),
            DaemonRequest::Stop(pid) => begin_stop(pid, false),
            DaemonRequest::Restart(pid) => begin_stop(pid, true),
        },
        _ => (s, DaemonAction::Wait),
    }
}

/// What an event does. An event that does not answer the action in flight
/// is ignored.
pub open spec fn on_report(s: ManagerState, event: DaemonEvent) -> (ManagerState, DaemonAction) {
    match s.phase {
        Phase::Spawning => match event {
            DaemonEvent::Spawned => (at(Phase::AwaitingReady), DaemonAction::ReadLine),
            DaemonEvent::SpawnFailed => (
                at(Phase::Stopped),
                DaemonAction::Done(Outcome::Failed(DaemonError::Spawn)),
            ),
            _ => (s, DaemonAction::Ignore),
        },
        Phase::AwaitingReady => match event {
            DaemonEvent::Line(line) => if is_ready_line(line@) {
                (at(Phase::Running), DaemonAction::Done(Outcome::Started))
            } else if line@.len() == 0 {
                (s, DaemonAction::AwaitTimeout)
            } else {
                (s, DaemonAction::ReadLine)
            },
            DaemonEvent::ReadFailed => (
                at(Phase::Failing(DaemonError::Unreadable)),
                DaemonAction::Kill,
            ),
            DaemonEvent::StartupTimeout => (
                at(Phase::Failing(DaemonError::NotReadyInTime)),
                DaemonAction::Kill,
            ),
            _ => (s, DaemonAction::Ignore),
        },
        Phase::Failing(why) => match event {
            DaemonEvent::Killed => (at(Phase::Stopped), DaemonAction::Done(Outcome::Failed(why))),
            DaemonEvent::KillFailed => (
                at(Phase::Stopped),
                DaemonAction::Done(Outcome::Failed(DaemonError::Kill)),
            ),
            _ => (s, DaemonAction::Ignore),
        },
        Phase::Interrupting => match event {
            DaemonEvent::Interrupted => (
                ManagerState { phase: Phase::AwaitingExit, restarting: s.restarting },
                DaemonAction::AwaitExit,
            ),
            DaemonEvent::InterruptFailed => (
                at(Phase::Running),
                DaemonAction::Done(Outcome::Failed(DaemonError::Interrupt)),
            ),
            _ => (s, DaemonAction::Ignore),
        },
        Phase::AwaitingExit => match event {
            DaemonEvent::Exited => stop_complete(s.restarting),
            DaemonEvent::ShutdownTimeout => (
                ManagerState { phase: Phase::KillingStale, restarting: s.restarting },
                DaemonAction::Kill,
            ),
            _ => (s, DaemonAction::Ignore),
        },
        Phase::KillingStale => match event {
            DaemonEvent::Killed => stop_complete(s.restarting),
            DaemonEvent::KillFailed => (
                at(Phase::Running),
                DaemonAction::Done(Outcome::Failed(DaemonError::Kill)),
            ),
            _ => (s, DaemonAction::Ignore),
        },
        _ => (s, DaemonAction::Ignore),
    }
}

/// What an input does.
pub open spec fn step(s: ManagerState, input: DaemonInput) -> (ManagerState, DaemonAction) {
    match input {
        DaemonInput::Request(request) => on_request(s, request),
        DaemonInput::Event(event) => on_report(s, event),
    }
}

/// The state after the inputs `inputs`, taken in order.
pub open spec fn run(s: ManagerState, inputs: Seq<DaemonInput>) -> ManagerState
    decreases inputs.len(),
{
    if inputs.len() == 0 {
        s
    } else {
        run(step(s, inputs.first()).0, inputs.drop_first())
    }
}

/// A failure that the program cannot go on after: the daemon did not come
/// up.
pub open spec fn is_fatal(error: DaemonError) -> bool {
    error is NotReadyInTime || error is Unreadable
}

/// Whether the program cannot go on after this failure.
pub fn fatal(error: DaemonError) -> (r: bool)
    ensures
        r == is_fatal(error),
{
    match error {
        DaemonError::NotReadyInTime => true,
        DaemonError::Unreadable => true,
        _ => false,
    }
}

/// The owner of the daemon process.
pub struct DaemonManager {
    state: ManagerState,
}

impl View for DaemonManager {
    type V = ManagerState;

    closed spec fn view(&self) -> ManagerState {
        self.state
    }
}

fn stop_done(restarting: bool) -> (r: (ManagerState, DaemonAction))
    ensures
        r == stop_complete(restarting),
{
    if restarting {
        (ManagerState { phase: Phase::Spawning, restarting: false }, DaemonAction::Spawn)
    } else {
        (
            ManagerState { phase: Phase::Stopped, restarting: false },
            DaemonAction::Done(Outcome::Stopped),
        )
    }
}

fn stop_begun(pid: Option<u32>, restarting: bool) -> (r: (ManagerState, DaemonAction))
    ensures
        r == begin_stop(pid, restarting),
{
    match pid {
        None => stop_done(restarting),
        Some(p) => {
            if p > 0x7fff_ffff {
                (
                    ManagerState { phase: Phase::Running, restarting: false },
                    DaemonAction::Done(Outcome::Failed(DaemonError::ProcessId)),
                )
            } else {
                (
                    ManagerState { phase: Phase::Interrupting, restarting },
                    DaemonAction::Interrupt(p as i32),
                )
            }
        },
    }
}

impl DaemonManager {
    /// A manager that owns no daemon.
    pub fn new() -> (r: Self)
        ensures
            r@ == at(Phase::Stopped),
    {
        DaemonManager { state: ManagerState { phase: Phase::Stopped, restarting: false } }
    }

    /// The state of the lifecycle.
    pub fn state(&self) -> (r: DaemonState)
        ensures
            r == state_of(self@.phase),
    {
        match self.state.phase {
            Phase::Stopped => DaemonState::Stopped,
            Phase::Spawning => DaemonState::Starting,
            Phase::AwaitingReady => DaemonState::Starting,
            Phase::Failing(_) => DaemonState::Starting,
            Phase::Running => DaemonState::Running,
            Phase::Interrupting => DaemonState::Stopping,
            Phase::AwaitingExit => DaemonState::Stopping,
            Phase::KillingStale => DaemonState::Stopping,
        }
    }

    /// Answers a request with the action to perform.
    pub fn request(&mut self, request: DaemonRequest) -> (action: DaemonAction)
        ensures
            (final(self)@, action) == step(old(self)@, DaemonInput::Request(request)),
    {
        let (next, action) = match self.state.phase {
            Phase::Stopped => match request {
                DaemonRequest::Start => (
                    ManagerState { phase: Phase::Spawning, restarting: false },
                    DaemonAction::Spawn,
                ),
                DaemonRequest::Stop(_) => (self.state, DaemonAction::Done(Outcome::Stopped)),
                DaemonRequest::Restart(_) => (
                    ManagerState { phase: Phase::Spawning, restarting: false },
                    DaemonAction::Spawn,
                ),
            },
            Phase::Running => match request {
                DaemonRequest::Start => (self.state, DaemonAction::Done(Outcome::Started)),
                DaemonRequest::Stop(pid) => stop_begun(pid, false),
                DaemonRequest::Restart(pid) => stop_begun(pid, true),
            },
            _ => (self.state, DaemonAction::Wait),
        };
        self.state = next;
        action
    }

    /// Asks for the daemon to be started.
    pub fn start(&mut self) -> (action: DaemonAction)
        ensures
            (final(self)@, action) == step(
                old(self)@,
                DaemonInput::Request(DaemonRequest::Start),
            ),
    {
        self.request(DaemonRequest::Start)
    }

    /// Asks for the daemon to be stopped. `pid` is the id of its process,
    /// or nothing where the process has exited already.
    pub fn stop(&mut self, pid: Option<u32>) -> (action: DaemonAction)
        ensures
            (final(self)@, action) == step(
                old(self)@,
                DaemonInput::Request(DaemonRequest::Stop(pid)),
            ),
    {
        self.request(DaemonRequest::Stop(pid))
    }

    /// Asks for the daemon to be stopped and started again, as one
    /// operation.
    pub fn restart(&mut self, pid: Option<u32>) -> (action: DaemonAction)
        ensures
            (final(self)@, action) == step(
                old(self)@,
                DaemonInput::Request(DaemonRequest::Restart(pid)),
            ),
    {
        self.request(DaemonRequest::Restart(pid))
    }

    /// Answers an event with the action to perform next.
    pub fn on_event(&mut self, event: DaemonEvent) -> (action: DaemonAction)
        ensures
            (final(self)@, action) == step(old(self)@, DaemonInput::Event(event)),
    {
        let s = self.state;
        let (next, action) = match s.phase {
            Phase::Spawning => match event {
                DaemonEvent::Spawned => (
                    ManagerState { phase: Phase::AwaitingReady, restarting: false },
                    DaemonAction::ReadLine,
                ),
                DaemonEvent::SpawnFailed => (
                    ManagerState { phase: Phase::Stopped, restarting: false },
                    DaemonAction::Done(Outcome::Failed(DaemonError::Spawn)),
                ),
                _ => (s, DaemonAction::Ignore),
            },
            Phase::AwaitingReady => match event {
                DaemonEvent::Line(line) => {
                    if announces_readiness(line.as_str()) {
                        (
                            ManagerState { phase: Phase::Running, restarting: false },
                            DaemonAction::Done(Outcome::Started),
                        )
                    } else if line.as_str().is_empty() {
                        (s, DaemonAction::AwaitTimeout)
                    } else {
                        (s, DaemonAction::ReadLine)
                    }
                },
                DaemonEvent::ReadFailed => (
                    ManagerState {
                        phase: Phase::Failing(DaemonError::Unreadable),
                        restarting: false,
                    },
                    DaemonAction::Kill,
                ),
                DaemonEvent::StartupTimeout => (
                    ManagerState {
                        phase: Phase::Failing(DaemonError::NotReadyInTime),
                        restarting: false,
                    },
                    DaemonAction::Kill,
                ),
                _ => (s, DaemonAction::Ignore),
            },
            Phase::Failing(why) => match event {
                DaemonEvent::Killed => (
                    ManagerState { phase: Phase::Stopped, restarting: false },
                    DaemonAction::Done(Outcome::Failed(why)),
                ),
                DaemonEvent::KillFailed => (
                    ManagerState { phase: Phase::Stopped, restarting: false },
                    DaemonAction::Done(Outcome::Failed(DaemonError::Kill)),
                ),
                _ => (s, DaemonAction::Ignore),
            },
            Phase::Interrupting => match event {
                DaemonEvent::Interrupted => (
                    ManagerState { phase: Phase::AwaitingExit, restarting: s.restarting },
                    DaemonAction::AwaitExit,
                ),
                DaemonEvent::InterruptFailed => (
                    ManagerState { phase: Phase::Running, restarting: false },
                    DaemonAction::Done(Outcome::Failed(DaemonError::Interrupt)),
                ),
                _ => (s, DaemonAction::Ignore),
            },
            Phase::AwaitingExit => match event {
                DaemonEvent::Exited => stop_done(s.restarting),
                DaemonEvent::ShutdownTimeout => (
                    ManagerState { phase: Phase::KillingStale, restarting: s.restarting },
                    DaemonAction::Kill,
                ),
                _ => (s, DaemonAction::Ignore),
            },
            Phase::KillingStale => match event {
                DaemonEvent::Killed => stop_done(s.restarting),
                DaemonEvent::KillFailed => (
                    ManagerState { phase: Phase::Running, restarting: false },
                    DaemonAction::Done(Outcome::Failed(DaemonError::Kill)),
                ),
                _ => (s, DaemonAction::Ignore),
            },
            _ => (s, DaemonAction::Ignore),
        };
        self.state = next;
        action
    }
}

/// No input is a line that announces readiness.
pub open spec fn no_ready_line(inputs: Seq<DaemonInput>) -> bool {
    forall|i: int|
        0 <= i < inputs.len() ==> !(#[trigger] inputs[i] matches DaemonInput::Event(
            DaemonEvent::Line(line),
        ) && is_ready_line(line@))
}

/// A daemon that never announces readiness is never taken to run. From a
/// manager that owns no daemon or is starting one, whatever is asked and
/// reported, the manager does not reach `Running` as long as no line holds
/// the marker. While it waits, the end of the startup budget is answered by
/// killing the daemon, and the kill by a fatal failure that leaves no
/// daemon owned.
pub proof fn lemma_no_readiness_no_running(s: ManagerState, inputs: Seq<DaemonInput>)
    requires
        state_of(s.phase) is Stopped || state_of(s.phase) is Starting,
        no_ready_line(inputs),
    ensures
        state_of(run(s, inputs).phase) is Stopped || state_of(run(s, inputs).phase) is Starting,
        step(at(Phase::AwaitingReady), DaemonInput::Event(DaemonEvent::StartupTimeout)) == (
            at(Phase::Failing(DaemonError::NotReadyInTime)),
            DaemonAction::Kill,
        ),
        step(
            at(Phase::Failing(DaemonError::NotReadyInTime)),
            DaemonInput::Event(DaemonEvent::Killed),
        ) == (
            at(Phase::Stopped),
            DaemonAction::Done(Outcome::Failed(DaemonError::NotReadyInTime)),
        ),
        is_fatal(DaemonError::NotReadyInTime),
    decreases inputs.len(),
{
    if inputs.len() > 0 {
        let rest = inputs.drop_first();
        assert(!(inputs[0] matches DaemonInput::Event(DaemonEvent::Line(line)) && is_ready_line(
            line@,
        )));
        assert forall|i: int| 0 <= i < rest.len() implies !(#[trigger] rest[i]
            matches DaemonInput::Event(DaemonEvent::Line(line)) && is_ready_line(line@)) by {
            assert(rest[i] == inputs[i + 1]);
        }
        lemma_no_readiness_no_running(step(s, inputs.first()).0, rest);
    }
}

/// While an operation is in flight, every request is told to wait and
/// changes nothing: a second restart stands behind the first.
pub proof fn lemma_requests_wait_their_turn(s: ManagerState, request: DaemonRequest)
    requires
        in_flight(s.phase),
    ensures
        step(s, DaemonInput::Request(request)) == (s, DaemonAction::Wait),
{
}

/// The steps that the lifecycle allows: a daemon starts from stopped, runs
/// after starting, and stops from running; a start that fails ends
/// stopped, a stop that fails leaves the daemon running, and a restart
/// goes from stopping, or from running where the process has exited
/// already, to starting.
pub open spec fn may_follow(from: DaemonState, to: DaemonState) -> bool {
    from == to || match from {
        DaemonState::Stopped => to is Starting,
        DaemonState::Starting => to is Running || to is Stopped,
        DaemonState::Running => to is Stopping || to is Stopped || to is Starting,
        DaemonState::Stopping => to is Stopped || to is Starting || to is Running,
    }
}

/// The manager moves along the lifecycle only: whatever the input, the
/// state after it is one that may follow the state before. No daemon is
/// taken to run that was not starting, and none is stopped that did not
/// run.
pub proof fn lemma_lifecycle(s: ManagerState, input: DaemonInput)
    ensures
        may_follow(state_of(s.phase), state_of(step(s, input).0.phase)),
{
}

/// Stopping is idempotent: once no daemon is owned, a stop succeeds at
/// once and changes nothing, and so does the stop of a daemon whose process
/// has exited already.
pub proof fn lemma_stop_is_idempotent(pid: Option<u32>)
    ensures
        step(at(Phase::Stopped), DaemonInput::Request(DaemonRequest::Stop(pid))) == (
            at(Phase::Stopped),
            DaemonAction::Done(Outcome::Stopped),
        ),
        step(at(Phase::Running), DaemonInput::Request(DaemonRequest::Stop(None))) == (
            at(Phase::Stopped),
            DaemonAction::Done(Outcome::Stopped),
        ),
{
}

/// An operation stays in flight until its end is announced: no event takes
/// the manager to rest without a `Done`. A restart does not end with the
/// stop: between its stop and its start there is no moment at which
/// another request is let in.
pub proof fn lemma_in_flight_until_done(s: ManagerState, event: DaemonEvent)
    requires
        in_flight(s.phase),
    ensures
        !in_flight(step(s, DaemonInput::Event(event)).0.phase) ==> step(
            s,
            DaemonInput::Event(event),
        ).1 is Done,
        s.restarting ==> step(s, DaemonInput::Event(event)).1 != DaemonAction::Done(
            Outcome::Stopped,
        ),
{
}

/// The owned daemon process comes to its end with this input: it exited
/// after the interrupt, it was killed, the handle of a start that failed
/// was given up, or a stop found that it had exited already.
pub open spec fn process_ends(s: ManagerState, input: DaemonInput) -> bool {
    match s.phase {
        Phase::AwaitingExit => input matches DaemonInput::Event(DaemonEvent::Exited),
        Phase::KillingStale => input matches DaemonInput::Event(DaemonEvent::Killed),
        Phase::Failing(_) => input matches DaemonInput::Event(DaemonEvent::Killed)
            || input matches DaemonInput::Event(DaemonEvent::KillFailed),
        Phase::Running => input matches DaemonInput::Request(DaemonRequest::Stop(None))
            || input matches DaemonInput::Request(DaemonRequest::Restart(None)),
        _ => false,
    }
}

/// A daemon process comes to life with this input: the spawn that was
/// asked for succeeded.
pub open spec fn process_begins(s: ManagerState, input: DaemonInput) -> bool {
    s.phase is Spawning && input matches DaemonInput::Event(DaemonEvent::Spawned)
}

/// How many more daemon processes are alive after the inputs than before.
pub open spec fn process_balance(s: ManagerState, inputs: Seq<DaemonInput>) -> int
    decreases inputs.len(),
{
    if inputs.len() == 0 {
        0
    } else {
        let change: int = if process_begins(s, inputs.first()) {
            1
        } else if process_ends(s, inputs.first()) {
            -1
        } else {
            0
        };
        change + process_balance(step(s, inputs.first()).0, inputs.drop_first())
    }
}

/// One if a daemon process is owned in this phase, else zero.
pub open spec fn owned(phase: Phase) -> int {
    if owns_process(phase) {
        1
    } else {
        0
    }
}

/// The processes that came to life and to their end over a run are the
/// difference between what is owned after and before.
pub proof fn lemma_process_balance(s: ManagerState, inputs: Seq<DaemonInput>)
    ensures
        process_balance(s, inputs) == owned(run(s, inputs).phase) - owned(s.phase),
    decreases inputs.len(),
{
    if inputs.len() > 0 {
        lemma_process_balance(step(s, inputs.first()).0, inputs.drop_first());
    }
}

/// At most one daemon process is alive at any time. From a manager that
/// owns none, whatever requests arrive and in whatever order, alone or
/// while another is in flight, the number of processes that came to life
/// and have not ended is zero or one, and it is one exactly when the
/// manager owns a process.
pub proof fn lemma_at_most_one_process(inputs: Seq<DaemonInput>)
    ensures
        0 <= process_balance(at(Phase::Stopped), inputs) <= 1,
        process_balance(at(Phase::Stopped), inputs) == owned(
            run(at(Phase::Stopped), inputs).phase,
        ),
{
    lemma_process_balance(at(Phase::Stopped), inputs);
}

/// A daemon is spawned only where none is owned: either none was owned
/// before, or the one that was came to its end with the same input.
pub proof fn lemma_spawn_replaces(s: ManagerState, input: DaemonInput)
    requires
        step(s, input).1 is Spawn,
    ensures
        step(s, input).0.phase is Spawning,
        !owns_process(s.phase) || process_ends(s, input),
{
}

} // verus!
