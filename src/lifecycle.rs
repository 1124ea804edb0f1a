//! The run's lifecycle, as a state machine from events to actions:
//! `Idle → PortNegotiated → AwaitingReadiness → ClientRunning → TornDown`.
//! `AwaitingReadiness` follows the spawn of the driver process, or, for a run
//! that starts no driver, comes straight after port negotiation.
//!
//! The caller performs each action (negotiating the port, spawning, polling for
//! readiness, running the session client, tearing down) and reports what came
//! of it as the next event. Any failure, and a cancellation at any point, leads
//! straight to teardown. Readiness is not a stage of its own: a reachable driver
//! is handed to the client at once.
use vstd::prelude::*;
use crate::browser::Browser;

verus! {

/// How a run failed.
#[derive(Clone, Copy, Debug, PartialEq, Eq, Structural)]
pub enum Failure {
    /// The driver executable could not be spawned.
    ProcessStart,
    /// A WebDriver command of the session failed.
    Connection,
    /// The WebDriver session could not be created.
    ClientBuild,
    /// The driver's port did not accept a connection before the deadline.
    StartTimeout,
    /// The run was cancelled from outside.
    Cancelled,
}

/// How a run ended.
#[derive(Clone, Copy, Debug, PartialEq, Eq, Structural)]
pub enum Outcome {
    Success,
    Failed(Failure),
}

/// Where a run stands.
#[derive(Clone, Copy, Debug, PartialEq, Eq, Structural)]
pub enum Stage {
    Idle,
    PortNegotiated,
    AwaitingReadiness,
    ClientRunning,
    TornDown,
}

/// What happened since the last action.
#[derive(Clone, Copy, Debug, PartialEq, Eq, Structural)]
pub enum Event {
    /// Port negotiation settled on this port.
    PortChosen(u16),
    /// The driver process was spawned.
    Spawned,
    /// Spawning the driver process failed.
    SpawnFailed,
    /// The driver's port accepted a connection.
    Reachable,
    /// The readiness deadline passed.
    ReadinessTimedOut,
    /// The session client returned.
    ClientFinished(Outcome),
    /// The run was cancelled.
    Cancelled,
}

/// What the caller does next.
#[derive(Clone, Copy, Debug, PartialEq, Eq, Structural)]
pub enum Action {
    /// Spawn the driver server of the run's browser on this port.
    Spawn(u16),
    /// Poll this port until it accepts a connection or the deadline passes.
    AwaitReadiness(u16),
    /// Hand the reachable driver on this port to the session client.
    RunClient(u16),
    /// Kill and reap the driver process if `kill`, then end with `outcome`.
    TearDown { kill: bool, outcome: Outcome },
}

/// The state of a run.
#[derive(Clone, Copy, Debug, PartialEq, Eq, Structural)]
pub struct RunState {
    pub browser: Browser,
    pub stage: Stage,
    pub port: u16,
    /// Whether a driver process is alive and owned by the run.
    pub process_live: bool,
}

/// A process is alive only between spawning and teardown, and never for a run
/// that starts no driver.
pub open spec fn state_wf(s: RunState) -> bool {
    &&& s.process_live ==> (s.stage == Stage::AwaitingReadiness || s.stage == Stage::ClientRunning)
    &&& s.browser == Browser::NoDriver ==> !s.process_live
    &&& s.stage == Stage::PortNegotiated ==> s.browser != Browser::NoDriver
}

/// The events a stage can receive.
pub open spec fn accepts(stage: Stage, e: Event) -> bool {
    match (stage, e) {
        (Stage::TornDown, _) => false,
        (_, Event::Cancelled) => true,
        (Stage::Idle, Event::PortChosen(_)) => true,
        (Stage::PortNegotiated, Event::Spawned) => true,
        (Stage::PortNegotiated, Event::SpawnFailed) => true,
        (Stage::AwaitingReadiness, Event::Reachable) => true,
        (Stage::AwaitingReadiness, Event::ReadinessTimedOut) => true,
        (Stage::ClientRunning, Event::ClientFinished(_)) => true,
        _ => false,
    }
}

/// Whether an event ends the run.
pub open spec fn is_ending(e: Event) -> bool {
    match e {
        Event::SpawnFailed | Event::ReadinessTimedOut | Event::ClientFinished(_)
        | Event::Cancelled => true,
        _ => false,
    }
}

/// The result a run ends with after an ending event.
pub open spec fn outcome_of(e: Event) -> Outcome {
    match e {
        Event::SpawnFailed => Outcome::Failed(Failure::ProcessStart),
        Event::ReadinessTimedOut => Outcome::Failed(Failure::StartTimeout),
        Event::ClientFinished(r) => r,
        _ => Outcome::Failed(Failure::Cancelled),
    }
}

/// The state after `e` and the action it calls for.
pub open spec fn step(s: RunState, e: Event) -> (RunState, Action) {
    if is_ending(e) {
        (
            RunState { stage: Stage::TornDown, process_live: false, ..s },
            Action::TearDown { kill: s.process_live, outcome: outcome_of(e) },
        )
    } else {
        match e {
            Event::PortChosen(p) => if s.browser == Browser::NoDriver {
                (RunState { stage: Stage::AwaitingReadiness, port: p, ..s }, Action::AwaitReadiness(p))
            } else {
                (RunState { stage: Stage::PortNegotiated, port: p, ..s }, Action::Spawn(p))
            },
            Event::Spawned => (
                RunState { stage: Stage::AwaitingReadiness, process_live: true, ..s },
                Action::AwaitReadiness(s.port),
            ),
            _ => (RunState { stage: Stage::ClientRunning, ..s }, Action::RunClient(s.port)),
        }
    }
}

/// Drives one run through its lifecycle.
pub struct Coordinator {
    state: RunState,
}

impl View for Coordinator {
    type V = RunState;

    closed spec fn view(&self) -> RunState {
        self.state
    }
}

impl Coordinator {
    /// A run for `browser` that has not yet chosen a port.
    pub fn new(browser: Browser) -> (r: Coordinator)
        ensures
            r@ == (RunState { browser, stage: Stage::Idle, port: 0, process_live: false }),
            state_wf(r@),
    {
        Coordinator { state: RunState { browser, stage: Stage::Idle, port: 0, process_live: false } }
    }

    /// The current state.
    pub fn state(&self) -> (r: RunState)
        ensures
            r == self@,
    {
        self.state
    }

    /// Whether the current stage can receive `e`.
    pub fn accepts(&self, e: Event) -> (r: bool)
        ensures
            r == accepts(self@.stage, e),
    {
        match (self.state.stage, e) {
            (Stage::TornDown, _) => false,
            (_, Event::Cancelled) => true,
            (Stage::Idle, Event::PortChosen(_)) => true,
            (Stage::PortNegotiated, Event::Spawned) => true,
            (Stage::PortNegotiated, Event::SpawnFailed) => true,
            (Stage::AwaitingReadiness, Event::Reachable) => true,
            (Stage::AwaitingReadiness, Event::ReadinessTimedOut) => true,
            (Stage::ClientRunning, Event::ClientFinished(_)) => true,
            _ => false,
        }
    }

    /// Moves the run on by `e` and returns the action that follows.
    pub fn on_event(&mut self, e: Event) -> (r: Action)
        requires
            state_wf(old(self)@),
            accepts(old(self)@.stage, e),
        ensures
            (final(self)@, r) == step(old(self)@, e),
            state_wf(final(self)@),
    {
        let s = self.state;
        let (next, action) = match e {
            Event::PortChosen(p) => match s.browser {
                Browser::NoDriver => (
                    RunState { stage: Stage::AwaitingReadiness, port: p, ..s },
                    Action::AwaitReadiness(p),
                ),
                _ => (RunState { stage: Stage::PortNegotiated, port: p, ..s }, Action::Spawn(p)),
            },
            Event::Spawned => (
                RunState { stage: Stage::AwaitingReadiness, process_live: true, ..s },
                Action::AwaitReadiness(s.port),
            ),
            Event::Reachable => (
                RunState { stage: Stage::ClientRunning, ..s },
                Action::RunClient(s.port),
            ),
            Event::SpawnFailed => (
                RunState { stage: Stage::TornDown, process_live: false, ..s },
                Action::TearDown { kill: s.process_live, outcome: Outcome::Failed(Failure::ProcessStart) },
            ),
            Event::ReadinessTimedOut => (
                RunState { stage: Stage::TornDown, process_live: false, ..s },
                Action::TearDown { kill: s.process_live, outcome: Outcome::Failed(Failure::StartTimeout) },
            ),
            Event::ClientFinished(outcome) => (
                RunState { stage: Stage::TornDown, process_live: false, ..s },
                Action::TearDown { kill: s.process_live, outcome },
            ),
            Event::Cancelled => (
                RunState { stage: Stage::TornDown, process_live: false, ..s },
                Action::TearDown { kill: s.process_live, outcome: Outcome::Failed(Failure::Cancelled) },
            ),
        };
        self.state = next;
        action
    }
}

/// Every way a run can end (a spawn failure, a readiness timeout, the client's
/// success or failure, a cancellation) moves it to teardown from any stage that
/// accepts the event: the live process, if any, is killed, none is left alive,
/// and the run ends with the outcome the event carries.
pub proof fn lemma_every_ending_tears_down(s: RunState, e: Event)
    requires
        state_wf(s),
        accepts(s.stage, e),
        is_ending(e),
    ensures
        step(s, e).0.stage == Stage::TornDown,
        !step(s, e).0.process_live,
        step(s, e).1 == (Action::TearDown { kill: s.process_live, outcome: outcome_of(e) }),
{
}

/// A torn-down run is final: it accepts no further event.
pub proof fn lemma_torn_down_is_final(s: RunState, e: Event)
    requires
        s.stage == Stage::TornDown,
    ensures
        !accepts(s.stage, e),
{
}

/// A run that starts no driver never spawns a process, never holds one, and
/// its teardown kills nothing.
pub proof fn lemma_no_driver_spawns_nothing(s: RunState, e: Event)
    requires
        state_wf(s),
        s.browser == Browser::NoDriver,
        accepts(s.stage, e),
    ensures
        !(step(s, e).1 is Spawn),
        !step(s, e).0.process_live,
        step(s, e).1 matches Action::TearDown { kill, .. } ==> !kill,
{
}

/// Control reaches the session client only after the driver's port was found
/// reachable, and a process is spawned only after a port was chosen.
pub proof fn lemma_ordering(s: RunState, e: Event)
    requires
        state_wf(s),
        accepts(s.stage, e),
    ensures
        step(s, e).1 is RunClient ==> e == Event::Reachable && s.stage == Stage::AwaitingReadiness,
        step(s, e).1 is Spawn ==> s.stage == Stage::Idle && e is PortChosen,
{
}

} // verus!
