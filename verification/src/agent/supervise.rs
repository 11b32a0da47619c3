//! Supervision of the frpc process: start it, wait for it, restart it five
//! seconds after it exits or fails to start, and stop (killing it if it
//! runs) when shutdown is requested. Spawning, waiting and sleeping are the
//! caller's; this machine says what to do after each event.

use vstd::prelude::*;

verus! {

/// The pause before a restart, in seconds.
pub const RESTART_BACKOFF_SECS: u64 = 5;

/// Where the supervisor is.
#[derive(Debug, Clone, Copy, PartialEq, Eq, Structural)]
pub enum SupervisorState {
    /// frpc is being started (shutdown is not watched meanwhile).
    Starting,
    /// frpc runs; its exit and shutdown are watched.
    Running,
    /// Waiting before the next start; shutdown is watched.
    BackingOff,
    /// Supervision ended.
    Stopped,
}

/// What the supervisor observed.
#[derive(Debug, Clone, Copy, PartialEq, Eq, Structural)]
pub enum SupervisorEvent {
    /// The process started.
    Started,
    /// The configuration could not be written or the process not spawned.
    StartFailed,
    /// The running process exited (or waiting for it failed).
    Exited,
    /// The backoff pause is over.
    BackoffElapsed,
    /// Shutdown was requested.
    Shutdown,
}

/// What to do next.
#[derive(Debug, Clone, Copy, PartialEq, Eq, Structural)]
pub enum SupervisorAction {
    /// Write the configuration and spawn frpc.
    Start,
    /// Wait for the process to exit or for shutdown.
    Watch,
    /// Pause this many seconds, or until shutdown.
    Pause(u64),
    /// Kill the process and end.
    KillAndStop,
    /// End.
    Stop,
}

/// Whether an event can be observed in a state: a start ends in success or
/// failure; a running process exits or shutdown comes; a pause elapses or
/// shutdown comes; nothing is observed once stopped.
pub open spec fn observable(state: SupervisorState, event: SupervisorEvent) -> bool {
    match state {
        SupervisorState::Starting => event == SupervisorEvent::Started || event == SupervisorEvent::StartFailed,
        SupervisorState::Running => event == SupervisorEvent::Exited || event == SupervisorEvent::Shutdown,
        SupervisorState::BackingOff => event == SupervisorEvent::BackoffElapsed || event == SupervisorEvent::Shutdown,
        SupervisorState::Stopped => false,
    }
}

/// The transition of the supervisor.
pub open spec fn supervise_spec(state: SupervisorState, event: SupervisorEvent) -> (SupervisorState, SupervisorAction) {
    match (state, event) {
        (SupervisorState::Starting, SupervisorEvent::Started) => (SupervisorState::Running, SupervisorAction::Watch),
        (SupervisorState::Starting, _) => (SupervisorState::BackingOff, SupervisorAction::Pause(RESTART_BACKOFF_SECS)),
        (SupervisorState::Running, SupervisorEvent::Exited) => (SupervisorState::BackingOff, SupervisorAction::Pause(RESTART_BACKOFF_SECS)),
        (SupervisorState::Running, _) => (SupervisorState::Stopped, SupervisorAction::KillAndStop),
        (SupervisorState::BackingOff, SupervisorEvent::BackoffElapsed) => (SupervisorState::Starting, SupervisorAction::Start),
        (SupervisorState::BackingOff, _) => (SupervisorState::Stopped, SupervisorAction::Stop),
        (SupervisorState::Stopped, _) => (SupervisorState::Stopped, SupervisorAction::Stop),
    }
}

/// The first step of supervision: start frpc.
pub fn supervise_start() -> (r: (SupervisorState, SupervisorAction))
    ensures
        r == (SupervisorState::Starting, SupervisorAction::Start),
{
    (SupervisorState::Starting, SupervisorAction::Start)
}

/// The next state and action after an observed event.
pub fn supervise_step(state: SupervisorState, event: SupervisorEvent) -> (r: (SupervisorState, SupervisorAction))
    requires
        observable(state, event),
    ensures
        r == supervise_spec(state, event),
{
    match (state, event) {
        (SupervisorState::Starting, SupervisorEvent::Started) => (SupervisorState::Running, SupervisorAction::Watch),
        (SupervisorState::Starting, _) => (SupervisorState::BackingOff, SupervisorAction::Pause(RESTART_BACKOFF_SECS)),
        (SupervisorState::Running, SupervisorEvent::Exited) => (SupervisorState::BackingOff, SupervisorAction::Pause(RESTART_BACKOFF_SECS)),
        (SupervisorState::Running, _) => (SupervisorState::Stopped, SupervisorAction::KillAndStop),
        (SupervisorState::BackingOff, SupervisorEvent::BackoffElapsed) => (SupervisorState::Starting, SupervisorAction::Start),
        (SupervisorState::BackingOff, _) => (SupervisorState::Stopped, SupervisorAction::Stop),
        (SupervisorState::Stopped, _) => (SupervisorState::Stopped, SupervisorAction::Stop),
    }
}

/// Shutdown, wherever it is observed, ends supervision, and a process that
/// runs is killed.
pub proof fn lemma_shutdown_stops(state: SupervisorState)
    requires
        observable(state, SupervisorEvent::Shutdown),
    ensures
        supervise_spec(state, SupervisorEvent::Shutdown).0 == SupervisorState::Stopped,
        state == SupervisorState::Running ==> supervise_spec(state, SupervisorEvent::Shutdown).1 == SupervisorAction::KillAndStop,
{
}

/// A restart always waits out the backoff: every failure leads to a pause
/// of five seconds, and a start follows only a pause that elapsed.
pub proof fn lemma_restart_after_backoff(state: SupervisorState, event: SupervisorEvent)
    requires
        observable(state, event),
    ensures
        (event == SupervisorEvent::Exited || event == SupervisorEvent::StartFailed)
            ==> supervise_spec(state, event) == (SupervisorState::BackingOff, SupervisorAction::Pause(RESTART_BACKOFF_SECS)),
        supervise_spec(state, event).1 == SupervisorAction::Start
            ==> state == SupervisorState::BackingOff && event == SupervisorEvent::BackoffElapsed,
{
}

} // verus!
