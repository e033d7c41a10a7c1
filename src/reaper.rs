//! Decisions of the background sweeper of expired sessions. The loop that
//! waits on the timer, runs sweeps and listens for shutdown feeds each event
//! to `ReaperState::step` and performs the action it returns.
use vstd::prelude::*;

verus! {

/// Where the sweeper stands.
#[derive(Debug, Clone, Copy, PartialEq, Eq, Structural)]
pub enum ReaperState {
    /// Waiting for the next tick.
    Idle,
    /// A sweep is running.
    Sweeping,
    /// Shutdown was asked while a sweep ran; waiting for it to finish.
    Stopping,
    /// Done: no sweep runs and none will start.
    Stopped,
}

/// What happened.
#[derive(Debug, Clone, Copy, PartialEq, Eq, Structural)]
pub enum ReaperEvent {
    /// The sweep period elapsed.
    Tick,
    /// The running sweep finished.
    SweepFinished,
    /// The process is shutting down.
    ShutdownRequested,
}

/// What the loop does next.
#[derive(Debug, Clone, Copy, PartialEq, Eq, Structural)]
pub enum ReaperAction {
    /// Start a sweep of expired sessions.
    StartSweep,
    /// Wait for the next event.
    Wait,
    /// Leave the loop.
    Exit,
}

/// The next state and action of the sweeper on `event` in `state`.
pub open spec fn reaper_next(state: ReaperState, event: ReaperEvent) -> (ReaperState, ReaperAction) {
    match (state, event) {
        (ReaperState::Idle, ReaperEvent::Tick) => (ReaperState::Sweeping, ReaperAction::StartSweep),
        (ReaperState::Idle, ReaperEvent::ShutdownRequested) => (ReaperState::Stopped, ReaperAction::Exit),
        (ReaperState::Sweeping, ReaperEvent::SweepFinished) => (ReaperState::Idle, ReaperAction::Wait),
        (ReaperState::Sweeping, ReaperEvent::ShutdownRequested) => (ReaperState::Stopping, ReaperAction::Wait),
        (ReaperState::Stopping, ReaperEvent::SweepFinished) => (ReaperState::Stopped, ReaperAction::Exit),
        (ReaperState::Stopped, _) => (ReaperState::Stopped, ReaperAction::Exit),
        (s, _) => (s, ReaperAction::Wait),
    }
}

impl ReaperState {
    /// The sweeper's state when it starts.
    pub fn initial() -> (r: ReaperState)
        ensures
            r == ReaperState::Idle,
    {
        ReaperState::Idle
    }

    /// The next state and action on `event`. A tick starts a sweep only
    /// when none runs and no shutdown was asked; a shutdown during a sweep
    /// waits for that sweep to finish before the loop exits.
    pub fn step(self, event: ReaperEvent) -> (r: (ReaperState, ReaperAction))
        ensures
            r == reaper_next(self, event),
            r.1 == ReaperAction::StartSweep ==> self == ReaperState::Idle && event == ReaperEvent::Tick,
            r.1 == ReaperAction::Exit ==> r.0 == ReaperState::Stopped,
            self == ReaperState::Sweeping ==> r.1 != ReaperAction::Exit,
    {
        match (self, event) {
            (ReaperState::Idle, ReaperEvent::Tick) => (ReaperState::Sweeping, ReaperAction::StartSweep),
            (ReaperState::Idle, ReaperEvent::ShutdownRequested) => (ReaperState::Stopped, ReaperAction::Exit),
            (ReaperState::Sweeping, ReaperEvent::SweepFinished) => (ReaperState::Idle, ReaperAction::Wait),
            (ReaperState::Sweeping, ReaperEvent::ShutdownRequested) => (ReaperState::Stopping, ReaperAction::Wait),
            (ReaperState::Stopping, ReaperEvent::SweepFinished) => (ReaperState::Stopped, ReaperAction::Exit),
            (ReaperState::Stopped, _) => (ReaperState::Stopped, ReaperAction::Exit),
            (s, _) => (s, ReaperAction::Wait),
        }
    }

    /// Whether a shutdown was asked: no sweep starts from here on.
    pub fn is_shutting_down(self) -> (r: bool)
        ensures
            r == (self == ReaperState::Stopping || self == ReaperState::Stopped),
    {
        match self {
            ReaperState::Stopping | ReaperState::Stopped => true,
            _ => false,
        }
    }
}

/// Once a shutdown was asked, no event starts a sweep and the state stays
/// shutting down.
pub proof fn lemma_no_sweep_after_shutdown(state: ReaperState, event: ReaperEvent)
    requires
        state == ReaperState::Stopping || state == ReaperState::Stopped,
    ensures
        reaper_next(state, event).1 != ReaperAction::StartSweep,
        reaper_next(state, event).0 == ReaperState::Stopping || reaper_next(state, event).0 == ReaperState::Stopped,
{
}

} // verus!
