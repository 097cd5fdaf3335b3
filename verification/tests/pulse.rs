use ringr::pulse::{ring_sequence, Phase};

fn phase(enable: bool, coil_a: bool, coil_b: bool, hold_ms: u64) -> Phase {
    Phase { enable, coil_a, coil_b, hold_ms }
}

#[test]
fn single_cycle_sequence() {
    let steps = ring_sequence(1);
    assert_eq!(
        steps,
        vec![
            phase(true, false, false, 0),
            phase(true, true, false, 15),
            phase(true, false, false, 5),
            phase(true, false, true, 15),
            phase(true, false, false, 5),
            phase(false, false, false, 0),
        ]
    );
}

#[test]
fn zero_count_is_bare_enable_pulse() {
    let steps = ring_sequence(0);
    assert_eq!(steps, vec![phase(true, false, false, 0), phase(false, false, false, 0)]);
    for s in &steps {
        assert!(!s.coil_a && !s.coil_b);
    }
}

#[test]
fn each_count_gives_that_many_forty_ms_cycles() {
    for n in [2u32, 5, 8, 20] {
        let steps = ring_sequence(n);
        assert_eq!(steps.len(), 4 * n as usize + 2);
        assert_eq!(steps[0], phase(true, false, false, 0));
        assert_eq!(steps[steps.len() - 1], phase(false, false, false, 0));
        for k in 0..n as usize {
            let cycle = &steps[4 * k + 1..4 * k + 5];
            assert_eq!(
                cycle,
                &[
                    phase(true, true, false, 15),
                    phase(true, false, false, 5),
                    phase(true, false, true, 15),
                    phase(true, false, false, 5),
                ]
            );
            let cycle_ms: u64 = cycle.iter().map(|s| s.hold_ms).sum();
            assert_eq!(cycle_ms, 40);
        }
        let total_ms: u64 = steps.iter().map(|s| s.hold_ms).sum();
        assert_eq!(total_ms, 40 * n as u64);
    }
}

#[test]
fn enable_held_high_until_the_end() {
    let steps = ring_sequence(3);
    for s in &steps[..steps.len() - 1] {
        assert!(s.enable);
    }
    assert!(!steps[steps.len() - 1].enable);
}
