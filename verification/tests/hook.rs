use ringr::hook::{HookAction, HookMonitor};
use ringr::signal::{Edge, Level};

#[test]
fn lift_speaks_once_after_700_ms() {
    let mut monitor = HookMonitor::new();
    assert_eq!(monitor.awaited_edge(), Edge::Falling);
    let action = monitor.on_confirmed(Level::Low);
    assert_eq!(action, HookAction::SpeakGreeting { delay_ms: 700 });
    assert_eq!(monitor.awaited_edge(), Edge::Rising);
}

#[test]
fn no_second_greeting_until_back_on_hook() {
    let mut monitor = HookMonitor::new();
    assert_eq!(monitor.on_confirmed(Level::Low), HookAction::SpeakGreeting { delay_ms: 700 });
    let while_off_hook = monitor.on_confirmed(Level::Low);
    assert_ne!(while_off_hook, HookAction::SpeakGreeting { delay_ms: 700 });
    assert_eq!(while_off_hook, HookAction::BackOnHook);
    assert_eq!(monitor.on_confirmed(Level::Low), HookAction::SpeakGreeting { delay_ms: 700 });
}

#[test]
fn full_lift_and_hang_up_round() {
    let mut monitor = HookMonitor::new();
    let mut greetings = 0;
    for action in [
        monitor.on_confirmed(Level::High),
        monitor.on_confirmed(Level::Low),
        monitor.on_confirmed(Level::High),
        monitor.on_confirmed(Level::High),
    ] {
        if let HookAction::SpeakGreeting { .. } = action {
            greetings += 1;
        }
    }
    assert_eq!(greetings, 1);
    assert_eq!(monitor.awaited_edge(), Edge::Falling);
}

#[test]
fn high_while_on_hook_only_logs() {
    let mut monitor = HookMonitor::new();
    assert_eq!(monitor.on_confirmed(Level::High), HookAction::StillOnHook);
    assert_eq!(monitor.awaited_edge(), Edge::Falling);
}
