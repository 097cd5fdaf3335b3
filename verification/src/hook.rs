use vstd::prelude::*;

use crate::signal::{Edge, Level};

verus! {

/// Milliseconds between a confirmed off-hook transition and the greeting.
pub const GREETING_DELAY_MS: u64 = 700;

/// Whether the handset rests on its hook.
#[derive(Clone, Copy, Debug, PartialEq, Eq, Structural)]
pub enum HookState {
    OnHook,
    OffHook,
}

/// What the monitor loop must do after a confirmed transition.
#[derive(Clone, Copy, Debug, PartialEq, Eq, Structural)]
pub enum HookAction {
    /// The handset is still on its hook; log and keep waiting.
    StillOnHook,
    /// The handset was lifted: wait `delay_ms`, then speak the greeting
    /// once, swallowing any playback failure.
    SpeakGreeting { delay_ms: u64 },
    /// The handset is back on its hook; log and keep waiting.
    BackOnHook,
}

/// One step of the handset monitor.  On the hook, a confirmed low level
/// means the handset was lifted: the monitor goes off-hook and the greeting
/// is spoken once, after [`GREETING_DELAY_MS`].  Off the hook, the next
/// confirmed transition — whatever level it reports — puts the monitor back
/// on-hook with no action besides logging, so no further greeting can come
/// before an on-hook confirmation is observed.
pub open spec fn hook_step(s: HookState, level: Level) -> (HookState, HookAction) {
    match (s, level) {
        (HookState::OnHook, Level::High) => (HookState::OnHook, HookAction::StillOnHook),
        (HookState::OnHook, Level::Low) => (
            HookState::OffHook,
            HookAction::SpeakGreeting { delay_ms: GREETING_DELAY_MS },
        ),
        (HookState::OffHook, _) => (HookState::OnHook, HookAction::BackOnHook),
    }
}

/// Tracks the hook switch and decides when the greeting is spoken.  The
/// monitor owns its state exclusively; it never interacts with ringing.
pub struct HookMonitor {
    state: HookState,
}

impl HookMonitor {
    /// The current hook state.
    pub closed spec fn state(&self) -> HookState {
        self.state
    }

    /// A fresh monitor starts on-hook, matching the powered-up reading of
    /// the switch.
    pub fn new() -> (m: Self)
        ensures
            m.state() == HookState::OnHook,
    {
        HookMonitor { state: HookState::OnHook }
    }

    /// Which edge the monitor waits for next.  The debounce layer is always
    /// told the edge of the expected next transition, so the monitor never
    /// disambiguates direction itself: falling while on-hook (a lift),
    /// rising while off-hook (a hang-up).
    pub fn awaited_edge(&self) -> (e: Edge)
        ensures
            e == (if self.state() is OnHook {
                Edge::Falling
            } else {
                Edge::Rising
            }),
    {
        match self.state {
            HookState::OnHook => Edge::Falling,
            HookState::OffHook => Edge::Rising,
        }
    }

    /// Feeds one confirmed debounce result to the monitor and returns what
    /// the loop must do.
    pub fn on_confirmed(&mut self, level: Level) -> (a: HookAction)
        ensures
            (final(self).state(), a) == hook_step(old(self).state(), level),
    {
        match (self.state, level) {
            (HookState::OnHook, Level::High) => HookAction::StillOnHook,
            (HookState::OnHook, Level::Low) => {
                self.state = HookState::OffHook;
                HookAction::SpeakGreeting { delay_ms: GREETING_DELAY_MS }
            },
            (HookState::OffHook, _) => {
                self.state = HookState::OnHook;
                HookAction::BackOnHook
            },
        }
    }
}

/// Law: the greeting is spoken exactly on a confirmed lift.  A step asks for
/// the greeting if and only if the monitor was on-hook and the confirmed
/// level is low, and the delay before speaking is [`GREETING_DELAY_MS`].
pub proof fn lemma_greeting_exactly_on_lift(s: HookState, level: Level)
    ensures
        hook_step(s, level).1 is SpeakGreeting <==> (s is OnHook && level is Low),
        hook_step(s, level).1 matches HookAction::SpeakGreeting { delay_ms } ==> delay_ms
            == GREETING_DELAY_MS,
{
}

/// Law: no second greeting before an on-hook confirmation.  A step that
/// speaks the greeting leaves the monitor off-hook, and from off-hook the
/// next confirmed transition never speaks: it can only put the monitor back
/// on-hook.  So two consecutive confirmed transitions cannot both greet.
pub proof fn lemma_no_greeting_until_back_on_hook(s: HookState, first: Level, second: Level)
    ensures
        hook_step(s, first).1 is SpeakGreeting ==> hook_step(s, first).0 is OffHook,
        s is OffHook ==> !(hook_step(s, first).1 is SpeakGreeting) && hook_step(s, first).0
            is OnHook,
        hook_step(s, first).1 is SpeakGreeting ==> !(hook_step(
            hook_step(s, first).0,
            second,
        ).1 is SpeakGreeting),
{
}

} // verus!
