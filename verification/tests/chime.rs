use ringr::chime::{next_chime_time, plan_for, plan_next_chime, seconds_until, ChimeWindow};
use ringr::clock::{month_length, next_day, LocalTime, MAX_YEAR};

fn at(year: i32, month: u8, day: u8, hour: u8, minute: u8, second: u8) -> LocalTime {
    LocalTime { year, month, day, hour, minute, second }
}

const WINDOW: ChimeWindow = ChimeWindow { start_hour: 9, end_hour: 19 };

#[test]
fn mid_window_chimes_at_next_hour() {
    let now = at(2026, 10, 11, 14, 10, 0);
    let next = next_chime_time(&now, &WINDOW);
    assert_eq!(next, at(2026, 10, 11, 15, 0, 0));
    assert_eq!(seconds_until(&now, &next), 50 * 60);
}

#[test]
fn past_window_end_rolls_to_next_morning() {
    let now = at(2026, 10, 11, 19, 30, 0);
    let next = next_chime_time(&now, &WINDOW);
    assert_eq!(next, at(2026, 10, 12, 9, 0, 0));
    assert_ne!(next.hour, 20);
    assert_eq!(seconds_until(&now, &next), (24 - 19) * 3600 - 30 * 60 + 9 * 3600);
}

#[test]
fn hour_23_chimes_at_next_midnight() {
    let now = at(2026, 10, 11, 23, 5, 30);
    let next = next_chime_time(&now, &WINDOW);
    assert_eq!(next, at(2026, 10, 12, 0, 0, 0));
    assert_ne!(next.hour, WINDOW.start_hour);
    assert_eq!(seconds_until(&now, &next), 86400 - (23 * 3600 + 5 * 60 + 30));
}

#[test]
fn hour_before_window_start_still_chimes_next_hour() {
    let now = at(2026, 10, 11, 3, 30, 0);
    let next = next_chime_time(&now, &WINDOW);
    assert_eq!(next, at(2026, 10, 11, 4, 0, 0));
}

#[test]
fn month_rollover() {
    let now = at(2026, 10, 31, 20, 0, 0);
    assert_eq!(next_chime_time(&now, &WINDOW), at(2026, 11, 1, 9, 0, 0));
}

#[test]
fn year_rollover() {
    let now = at(2026, 12, 31, 22, 59, 59);
    assert_eq!(next_chime_time(&now, &WINDOW), at(2027, 1, 1, 9, 0, 0));
    let late = at(2026, 12, 31, 23, 30, 0);
    assert_eq!(next_chime_time(&late, &WINDOW), at(2027, 1, 1, 0, 0, 0));
}

#[test]
fn leap_year_february() {
    assert_eq!(next_day(&at(2024, 2, 28, 20, 0, 0)), at(2024, 2, 29, 20, 0, 0));
    assert_eq!(next_day(&at(2024, 2, 29, 20, 0, 0)), at(2024, 3, 1, 20, 0, 0));
    assert_eq!(next_day(&at(2025, 2, 28, 20, 0, 0)), at(2025, 3, 1, 20, 0, 0));
}

#[test]
fn month_lengths_follow_the_calendar() {
    assert_eq!(month_length(2024, 2), 29);
    assert_eq!(month_length(2025, 2), 28);
    assert_eq!(month_length(2000, 2), 29);
    assert_eq!(month_length(1900, 2), 28);
    assert_eq!(month_length(2026, 4), 30);
    assert_eq!(month_length(2026, 12), 31);
}

#[test]
fn a_plan_exists_for_every_ordinary_reading() {
    let now = at(2026, 10, 11, 19, 30, 0);
    let plan = plan_for(&now, &WINDOW).expect("an ordinary evening has a plan");
    assert_eq!(plan.now, now);
    assert_eq!(plan.next, at(2026, 10, 12, 9, 0, 0));
    assert_eq!(plan.sleep_seconds, (24 - 19) * 3600 - 30 * 60 + 9 * 3600);
}

#[test]
fn only_the_calendars_last_evening_has_no_plan() {
    let last_noon = at(MAX_YEAR, 12, 31, 12, 0, 0);
    let plan = plan_for(&last_noon, &WINDOW).expect("the chime still falls on the same day");
    assert_eq!(plan.next, at(MAX_YEAR, 12, 31, 13, 0, 0));
    assert!(plan_for(&at(MAX_YEAR, 12, 31, 20, 0, 0), &WINDOW).is_none());
    assert!(plan_for(&at(MAX_YEAR, 12, 31, 23, 30, 0), &WINDOW).is_none());
    assert!(plan_for(&at(MAX_YEAR, 12, 30, 23, 30, 0), &WINDOW).is_some());
}

#[test]
fn planning_from_the_real_clock_is_coherent() {
    let plan = plan_next_chime(&WINDOW).expect("the clock is far from the calendar's end");
    assert!(plan.now.month >= 1 && plan.now.month <= 12);
    assert!(plan.now.day >= 1 && plan.now.day <= 31);
    assert!(plan.now.hour <= 23 && plan.now.minute <= 59 && plan.now.second <= 59);
    assert_eq!(plan.next.minute, 0);
    assert_eq!(plan.next.second, 0);
    assert!(plan.next.hour <= WINDOW.end_hour || plan.next.hour == WINDOW.start_hour);
    assert!(plan.sleep_seconds > 0);
    assert!(plan.sleep_seconds <= 24 * 3600 + WINDOW.start_hour as u64 * 3600);
}
