use ringr::pulse::ring_sequence;
use ringr::service::{button_pressed, chime_fired, RingerService};

#[test]
fn startup_self_test_rings_eight_before_anything_else() {
    let mut service = RingerService::new();
    button_pressed(&mut service);
    let first = service.process_next().expect("self-test queued");
    assert_eq!(first, ring_sequence(8));
    let second = service.process_next().expect("button press queued");
    assert_eq!(second, ring_sequence(4));
}

#[test]
fn commands_are_fifo_never_merged() {
    let mut service = RingerService::new();
    service.process_next().expect("self-test queued");
    service.submit(3);
    service.submit(5);
    let first = service.process_next().expect("first command");
    let second = service.process_next().expect("second command");
    assert_eq!(first, ring_sequence(3));
    assert_eq!(second, ring_sequence(5));
    assert_eq!(first.len(), 4 * 3 + 2);
    assert_eq!(second.len(), 4 * 5 + 2);
    let merged = ring_sequence(8);
    assert_ne!(first.len() + second.len(), merged.len());
    assert!(service.process_next().is_none());
}

#[test]
fn empty_queue_yields_nothing() {
    let mut service = RingerService::new();
    assert!(service.process_next().is_some());
    assert!(service.process_next().is_none());
    assert!(service.process_next().is_none());
}

#[test]
fn button_press_submits_four() {
    let mut service = RingerService::new();
    service.process_next();
    button_pressed(&mut service);
    assert_eq!(service.process_next().expect("queued"), ring_sequence(4));
}

#[test]
fn chime_submits_two() {
    let mut service = RingerService::new();
    service.process_next();
    chime_fired(&mut service);
    assert_eq!(service.process_next().expect("queued"), ring_sequence(2));
}

#[test]
fn submissions_during_a_ring_survive_in_order() {
    let mut service = RingerService::new();
    service.submit(1);
    service.submit(2);
    service.submit(3);
    let mut counts: Vec<usize> = Vec::new();
    while let Some(plan) = service.process_next() {
        counts.push((plan.len() - 2) / 4);
    }
    assert_eq!(counts, vec![8, 1, 2, 3]);
}
