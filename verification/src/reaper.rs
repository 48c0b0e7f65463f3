//! The session reaper: every hour, all sessions end at once.
//!
//! The reaper decides; its caller sleeps and takes hold of the registry. The
//! caller reports what happened as an event and is told what to do next.

use vstd::prelude::*;

use crate::sessions::{swept, SessionRegistry};

verus! {

/// The time between two sweeps, in seconds.
pub const SWEEP_INTERVAL_SECONDS: u64 = 3600;

/// What the caller of the reaper reports.
#[derive(Clone, Copy, Debug, PartialEq, Eq, Structural)]
pub enum ReaperEvent {
    /// The reaper has just been started.
    Started,
    /// The sleep that was asked for is over.
    Slept,
    /// The registry has been swept.
    Swept,
    /// The registry could not be taken hold of.
    SweepFailed,
}

/// What the reaper asks its caller to do.
#[derive(Clone, Copy, Debug, PartialEq, Eq, Structural)]
pub enum ReaperAction {
    /// Sleep for this many seconds, then report `Slept`.
    Sleep { seconds: u64 },
    /// Take hold of the registry and sweep it, then report `Swept`, or
    /// report `SweepFailed` if the registry cannot be had.
    Sweep,
}

/// The action that follows an event: a sweep after each sleep, and a sleep
/// of one interval otherwise. A failed sweep is not repeated before the next
/// interval has passed.
pub open spec fn action_after(event: ReaperEvent) -> ReaperAction {
    match event {
        ReaperEvent::Slept => ReaperAction::Sweep,
        ReaperEvent::Started | ReaperEvent::Swept | ReaperEvent::SweepFailed => {
            ReaperAction::Sleep { seconds: SWEEP_INTERVAL_SECONDS }
        },
    }
}

/// Tells the caller what to do after `event`.
pub fn next_action(event: ReaperEvent) -> (action: ReaperAction)
    ensures
        action == action_after(event),
{
    match event {
        ReaperEvent::Slept => ReaperAction::Sweep,
        ReaperEvent::Started | ReaperEvent::Swept | ReaperEvent::SweepFailed => {
            ReaperAction::Sleep { seconds: SWEEP_INTERVAL_SECONDS }
        },
    }
}

/// Sweeps the registry and names the event to report.
pub fn sweep(registry: &mut SessionRegistry) -> (event: ReaperEvent)
    ensures
        final(registry)@ == swept(),
        event == ReaperEvent::Swept,
{
    registry.clear_all();
    ReaperEvent::Swept
}

/// The reaper alternates for ever: whatever the outcome of a sweep, the next
/// action is a sleep of one interval, and the action after that sleep is a
/// sweep.
pub proof fn lemma_reaper_alternates(outcome: ReaperEvent)
    requires
        outcome == ReaperEvent::Swept || outcome == ReaperEvent::SweepFailed,
    ensures
        action_after(outcome) == (ReaperAction::Sleep { seconds: SWEEP_INTERVAL_SECONDS }),
        action_after(ReaperEvent::Slept) == ReaperAction::Sweep,
{
}

} // verus!
