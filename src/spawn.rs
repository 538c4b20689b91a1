//! The spawn loop: a warm-up wait, then forever an interval wait followed by a
//! burst of labels whose size follows the viewport height.
use vstd::prelude::*;

verus! {

/// Wait before the first burst, in milliseconds.
pub const WARM_UP_MILLIS: u64 = 3000;

/// Wait between two bursts, in milliseconds.
pub const INTERVAL_MILLIS: u64 = 1000;

/// Number of labels in a burst for a viewport height `h`: `floor(10 * h / 800)`,
/// and none for a height that is not positive.
pub open spec fn burst_size_of(height: int) -> nat {
    if height <= 0 {
        0
    } else {
        (10 * height / 800) as nat
    }
}

/// Number of labels to create in one burst for the viewport's client height.
pub fn burst_size(height: i32) -> (n: u64)
    ensures
        n == burst_size_of(height as int),
{
    if height <= 0 {
        0
    } else {
        let h: u64 = height as u64;
        10 * h / 800
    }
}

/// Where the spawn loop stands.
#[derive(Clone, Copy, Debug, PartialEq, Eq, Structural)]
pub enum SpawnPhase {
    /// Not started yet.
    Idle,
    /// Waiting out the warm-up delay.
    WarmingUp,
    /// Waiting out the interval before the next burst.
    Waiting,
    /// A label of the current burst is being created; `remaining` more follow it.
    Bursting { remaining: u64 },
    /// The page was torn down or found misconfigured: nothing more is done.
    Stopped,
}

/// What the host reports to the spawn loop.
#[derive(Clone, Copy, Debug, PartialEq, Eq, Structural)]
pub enum SpawnEvent {
    /// The page is ready and the loop may begin.
    Started,
    /// The wait last asked for is over; `height` is the viewport's client height now.
    TimerFired { height: i32 },
    /// The label last asked for was handled; `created` is false where rendering it failed.
    LabelFinished { created: bool },
    /// The page is going away: all pending work stops.
    TornDown,
    /// An element that the page must have is missing: the display cannot work.
    PageMisconfigured,
}

/// What the spawn loop asks the host to do next.
#[derive(Clone, Copy, Debug, PartialEq, Eq, Structural)]
pub enum SpawnAction {
    /// Wait this many milliseconds, then report `TimerFired`.
    Wait { millis: u64 },
    /// Create one label, then report `LabelFinished`.
    CreateLabel,
    /// The event does not apply in this phase: nothing to do.
    Ignore,
    /// The loop is over: drop what is pending.
    Halt,
}

/// The phase after a burst (or its last label) is done: wait for the next one.
pub open spec fn after_burst() -> (SpawnPhase, SpawnAction) {
    (SpawnPhase::Waiting, SpawnAction::Wait { millis: INTERVAL_MILLIS })
}

/// One step of the spawn loop: from a phase and an event to the next phase and action.
pub open spec fn spawn_step(phase: SpawnPhase, event: SpawnEvent) -> (SpawnPhase, SpawnAction) {
    match (phase, event) {
        (_, SpawnEvent::TornDown) => (SpawnPhase::Stopped, SpawnAction::Halt),
        (_, SpawnEvent::PageMisconfigured) => (SpawnPhase::Stopped, SpawnAction::Halt),
        (SpawnPhase::Idle, SpawnEvent::Started) => (
            SpawnPhase::WarmingUp,
            SpawnAction::Wait { millis: WARM_UP_MILLIS },
        ),
        (SpawnPhase::WarmingUp, SpawnEvent::TimerFired { .. }) => after_burst(),
        (SpawnPhase::Waiting, SpawnEvent::TimerFired { height }) => {
            let n = burst_size_of(height as int);
            if n == 0 {
                after_burst()
            } else {
                (SpawnPhase::Bursting { remaining: (n - 1) as u64 }, SpawnAction::CreateLabel)
            }
        },
        (SpawnPhase::Bursting { remaining }, SpawnEvent::LabelFinished { .. }) => {
            if remaining == 0 {
                after_burst()
            } else {
                (SpawnPhase::Bursting { remaining: (remaining - 1) as u64 }, SpawnAction::CreateLabel)
            }
        },
        _ => (phase, SpawnAction::Ignore),
    }
}

impl SpawnPhase {
    /// The phase before the loop is started.
    pub fn new() -> (r: SpawnPhase)
        ensures
            r == SpawnPhase::Idle,
    {
        SpawnPhase::Idle
    }

    /// Advances the loop by one event, returning the next phase and what to do.
    pub fn step(self, event: SpawnEvent) -> (r: (SpawnPhase, SpawnAction))
        ensures
            r == spawn_step(self, event),
    {
        match (self, event) {
            (_, SpawnEvent::TornDown) => (SpawnPhase::Stopped, SpawnAction::Halt),
            (_, SpawnEvent::PageMisconfigured) => (SpawnPhase::Stopped, SpawnAction::Halt),
        (_, SpawnEvent::PageMisconfigured) => (SpawnPhase::Stopped, SpawnAction::Halt),
            (SpawnPhase::Idle, SpawnEvent::Started) => (
                SpawnPhase::WarmingUp,
                SpawnAction::Wait { millis: WARM_UP_MILLIS },
            ),
            (SpawnPhase::WarmingUp, SpawnEvent::TimerFired { .. }) => (
                SpawnPhase::Waiting,
                SpawnAction::Wait { millis: INTERVAL_MILLIS },
            ),
            (SpawnPhase::Waiting, SpawnEvent::TimerFired { height }) => {
                let n = burst_size(height);
                if n == 0 {
                    (SpawnPhase::Waiting, SpawnAction::Wait { millis: INTERVAL_MILLIS })
                } else {
                    (SpawnPhase::Bursting { remaining: n - 1 }, SpawnAction::CreateLabel)
                }
            },
            (SpawnPhase::Bursting { remaining }, SpawnEvent::LabelFinished { .. }) => {
                if remaining == 0 {
                    (SpawnPhase::Waiting, SpawnAction::Wait { millis: INTERVAL_MILLIS })
                } else {
                    (SpawnPhase::Bursting { remaining: remaining - 1 }, SpawnAction::CreateLabel)
                }
            },
            _ => (self, SpawnAction::Ignore),
        }
    }
}

/// The report of a label, created or failed.
pub open spec fn label_report(created: bool) -> SpawnEvent {
    SpawnEvent::LabelFinished { created }
}

/// A label whose rendering failed moves the loop exactly as one that was created,
/// and once started the loop stops only when the page is torn down or found
/// misconfigured: no event brings it back to `Idle`, no other event stops it,
/// and while labels of a burst remain the next action is to create one more.
pub proof fn lemma_label_failure_isolated(phase: SpawnPhase, event: SpawnEvent)
    ensures
        spawn_step(phase, label_report(false)) == spawn_step(phase, label_report(true)),
        phase != SpawnPhase::Idle ==> spawn_step(phase, event).0 != SpawnPhase::Idle,
        (phase != SpawnPhase::Stopped && event != SpawnEvent::TornDown && event
            != SpawnEvent::PageMisconfigured) ==> (spawn_step(
            phase,
            event,
        ).0 != SpawnPhase::Stopped && spawn_step(phase, event).1 != SpawnAction::Halt),
        (event == SpawnEvent::TornDown || event == SpawnEvent::PageMisconfigured) ==> spawn_step(
            phase,
            event,
        ) == (
        SpawnPhase::Stopped,
        SpawnAction::Halt,
        ),
        (phase matches SpawnPhase::Bursting { remaining } && remaining > 0) ==> (spawn_step(
            phase,
            label_report(false),
        ).1 == SpawnAction::CreateLabel),
{
}

/// The phase that a burst for `height` starts in.
pub open spec fn burst_start(height: i32) -> SpawnPhase {
    spawn_step(SpawnPhase::Waiting, SpawnEvent::TimerFired { height }).0
}

/// A burst of `n` labels goes on to its end whichever of its labels fail: after
/// the first label, `k < n` label reports leave `n - 1 - k` to go.
pub proof fn lemma_burst_runs_to_completion(height: i32, outcomes: Seq<bool>)
    requires
        burst_size_of(height as int) > 0,
        outcomes.len() < burst_size_of(height as int),
    ensures
        burst_phase_after(burst_start(height), outcomes) == (SpawnPhase::Bursting {
            remaining: (burst_size_of(height as int) - 1 - outcomes.len()) as u64,
        }),
    decreases outcomes.len(),
{
    if outcomes.len() > 0 {
        lemma_burst_runs_to_completion(height, outcomes.drop_last());
    }
}

/// The phase reached from `phase` after one label report per entry of `outcomes`.
pub open spec fn burst_phase_after(phase: SpawnPhase, outcomes: Seq<bool>) -> SpawnPhase
    decreases outcomes.len(),
{
    if outcomes.len() == 0 {
        phase
    } else {
        spawn_step(
            burst_phase_after(phase, outcomes.drop_last()),
            SpawnEvent::LabelFinished { created: outcomes.last() },
        ).0
    }
}

} // verus!
