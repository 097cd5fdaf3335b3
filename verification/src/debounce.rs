use vstd::prelude::*;

use crate::signal::Level;

verus! {

/// Number of agreeing samples that confirm a transition.
pub const SAMPLE_COUNT: u8 = 5;

/// Milliseconds between two confirmation samples.
pub const SAMPLE_SPACING_MS: u64 = 100;

/// Where the debouncer stands between two events.
#[derive(Clone, Copy, Debug, PartialEq, Eq, Structural)]
pub enum DebounceState {
    /// Waiting for the hardware to notify a transition.
    Armed,
    /// A transition to `level` was notified; `taken` of the
    /// [`SAMPLE_COUNT`] confirmation samples have been consumed.
    Sampling { level: Level, taken: u8 },
}

/// What the driving loop reports to the debouncer.
#[derive(Clone, Copy, Debug, PartialEq, Eq, Structural)]
pub enum DebounceEvent {
    /// The hardware notified a transition to this level.
    Notified(Level),
    /// The hardware notification fired with no real transition pending.
    Spurious,
    /// One confirmation sample read this level.
    Sample(Level),
}

/// What the driving loop must do after an event.
#[derive(Clone, Copy, Debug, PartialEq, Eq, Structural)]
pub enum DebounceAction {
    /// Log the spurious notification and keep waiting; never fatal.
    LogBounce,
    /// Sleep `delay_ms`, read the input once, and report the sample.
    SleepAndSample { delay_ms: u64 },
    /// The confirmation window is complete: hand this level to the caller.
    Confirmed(Level),
    /// The event does not apply to the current state; do nothing.
    Ignored,
}

impl DebounceState {
    /// A sampling count never reaches the window size between events.
    pub open spec fn wf(self) -> bool {
        self matches DebounceState::Sampling { taken, .. } ==> taken < SAMPLE_COUNT
    }
}

/// One step of the debouncer.  A notified transition opens a confirmation
/// window of [`SAMPLE_COUNT`] samples, [`SAMPLE_SPACING_MS`] apart.  Every
/// sample consumes one slot of the window whether or not it agrees with the
/// notified level — a disagreeing sample neither restarts the count nor
/// changes the outcome — and when the window completes, the level that
/// triggered the notification is confirmed.
pub open spec fn debounce_step(s: DebounceState, e: DebounceEvent) -> (DebounceState,
    DebounceAction) {
    match (s, e) {
        (DebounceState::Armed, DebounceEvent::Notified(level)) => (
            DebounceState::Sampling { level, taken: 0 },
            DebounceAction::SleepAndSample { delay_ms: SAMPLE_SPACING_MS },
        ),
        (DebounceState::Armed, DebounceEvent::Spurious) => (
            DebounceState::Armed,
            DebounceAction::LogBounce,
        ),
        (DebounceState::Sampling { level, taken }, DebounceEvent::Sample(_)) => {
            if taken + 1 == SAMPLE_COUNT {
                (DebounceState::Armed, DebounceAction::Confirmed(level))
            } else {
                (
                    DebounceState::Sampling { level, taken: (taken + 1) as u8 },
                    DebounceAction::SleepAndSample { delay_ms: SAMPLE_SPACING_MS },
                )
            }
        },
        _ => (s, DebounceAction::Ignored),
    }
}

/// Performs one debouncer step.
pub fn step(s: DebounceState, e: DebounceEvent) -> (r: (DebounceState, DebounceAction))
    requires
        s.wf(),
    ensures
        r == debounce_step(s, e),
        r.0.wf(),
{
    match (s, e) {
        (DebounceState::Armed, DebounceEvent::Notified(level)) => (
            DebounceState::Sampling { level, taken: 0 },
            DebounceAction::SleepAndSample { delay_ms: SAMPLE_SPACING_MS },
        ),
        (DebounceState::Armed, DebounceEvent::Spurious) => (
            DebounceState::Armed,
            DebounceAction::LogBounce,
        ),
        (DebounceState::Sampling { level, taken }, DebounceEvent::Sample(_)) => {
            if taken + 1 == SAMPLE_COUNT {
                (DebounceState::Armed, DebounceAction::Confirmed(level))
            } else {
                (
                    DebounceState::Sampling { level, taken: taken + 1 },
                    DebounceAction::SleepAndSample { delay_ms: SAMPLE_SPACING_MS },
                )
            }
        },
        _ => (s, DebounceAction::Ignored),
    }
}

/// Law: a sample that disagrees with the notified level still consumes its
/// slot of the confirmation window.  A step on any sampled value leaves the
/// debouncer exactly where a step on an agreeing sample would: the count
/// never restarts on disagreement.
pub proof fn lemma_disagreement_consumes_attempt(level: Level, taken: u8, sampled: Level)
    ensures
        debounce_step(
            DebounceState::Sampling { level, taken },
            DebounceEvent::Sample(sampled),
        ) == debounce_step(
            DebounceState::Sampling { level, taken },
            DebounceEvent::Sample(level),
        ),
{
}

/// The state and last action after feeding the samples in `samples` to the
/// debouncer one by one, starting from `s`.
pub open spec fn after_samples(s: DebounceState, samples: Seq<Level>) -> (DebounceState,
    DebounceAction)
    decreases samples.len(),
{
    if samples.len() == 0 {
        (s, DebounceAction::Ignored)
    } else if samples.len() == 1 {
        debounce_step(s, DebounceEvent::Sample(samples[0]))
    } else {
        after_samples(
            debounce_step(s, DebounceEvent::Sample(samples[0])).0,
            samples.drop_first(),
        )
    }
}

proof fn lemma_sampling_completes(level: Level, taken: u8, samples: Seq<Level>)
    requires
        taken < SAMPLE_COUNT,
        samples.len() == SAMPLE_COUNT - taken,
    ensures
        after_samples(DebounceState::Sampling { level, taken }, samples) == (
            DebounceState::Armed,
            DebounceAction::Confirmed(level),
        ),
    decreases samples.len(),
{
    if samples.len() > 1 {
        lemma_sampling_completes(level, (taken + 1) as u8, samples.drop_first());
    }
}

/// Law: confirmation takes exactly [`SAMPLE_COUNT`] consecutive samples.
/// Whatever the five sampled values are — agreeing with the notified level
/// or not — the window runs to completion without restarting, and what is
/// confirmed is the level that triggered the notification.
pub proof fn lemma_confirmation_window(level: Level, samples: Seq<Level>)
    requires
        samples.len() == SAMPLE_COUNT,
    ensures
        after_samples(DebounceState::Sampling { level, taken: 0 }, samples) == (
            DebounceState::Armed,
            DebounceAction::Confirmed(level),
        ),
{
    lemma_sampling_completes(level, 0, samples);
}

} // verus!
