//! The reaper: what decides, tick by tick, when the registry is swept.

use vstd::prelude::*;

verus! {

/// How long a session lasts where nothing else is asked for, in seconds.
pub const SESSION_TTL_SECS: u64 = 30;

/// How long the reaper waits between two sweeps, in seconds: one day.
pub const SWEEP_INTERVAL_SECS: u64 = 86400;

/// Where the reaper stands.
#[derive(Clone, Copy, Debug, PartialEq, Eq, Structural)]
pub enum ReaperState {
    /// Between two sweeps, holding nothing.
    Waiting,
    /// In the middle of a sweep.
    Sweeping,
}

/// What the reaper is told.
#[derive(Clone, Copy, Debug, PartialEq, Eq, Structural)]
pub enum ReaperEvent {
    /// The interval has run out.
    Tick,
    /// The sweep that was asked for is done, or was given up.
    SweepDone,
}

/// What the reaper asks for next.
#[derive(Clone, Copy, Debug, PartialEq, Eq, Structural)]
pub enum ReaperAction {
    /// Wait for the next tick, without holding the registry.
    AwaitTick,
    /// Sweep the registry once.
    Sweep,
}

/// The reaper's rule: a tick starts a sweep and the end of a sweep sends the
/// reaper back to waiting, wherever it stood. A sweep asked for twice does no
/// harm, so a tick that finds it sweeping asks again.
pub open spec fn reaper_rule(state: ReaperState, event: ReaperEvent) -> (ReaperState, ReaperAction) {
    match event {
        ReaperEvent::Tick => (ReaperState::Sweeping, ReaperAction::Sweep),
        ReaperEvent::SweepDone => (ReaperState::Waiting, ReaperAction::AwaitTick),
    }
}

/// The state the reaper starts in.
pub fn reaper_start() -> (state: ReaperState)
    ensures
        state == ReaperState::Waiting,
{
    ReaperState::Waiting
}

/// Takes the reaper from `state` on `event`: the state it is in afterwards
/// and what it asks for.
pub fn reaper_step(state: ReaperState, event: ReaperEvent) -> (next: (ReaperState, ReaperAction))
    ensures
        next == reaper_rule(state, event),
{
    match event {
        ReaperEvent::Tick => (ReaperState::Sweeping, ReaperAction::Sweep),
        ReaperEvent::SweepDone => (ReaperState::Waiting, ReaperAction::AwaitTick),
    }
}

/// The reaper never comes to rest: from every state a tick and then the end
/// of the sweep bring it back to waiting, having asked for one sweep and then
/// for the next tick.
pub proof fn lemma_reaper_goes_round(state: ReaperState)
    ensures
        reaper_rule(state, ReaperEvent::Tick) == (ReaperState::Sweeping, ReaperAction::Sweep),
        reaper_rule(reaper_rule(state, ReaperEvent::Tick).0, ReaperEvent::SweepDone) == (
            ReaperState::Waiting,
            ReaperAction::AwaitTick,
        ),
{
}

} // verus!
