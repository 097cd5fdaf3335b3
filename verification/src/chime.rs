use vstd::prelude::*;

use crate::clock::{local_now, next_day, spec_next_day, LocalTime, DAY_SECONDS, MAX_YEAR};

verus! {

/// The inclusive range of hours, in local 24-hour time, during which hourly
/// chimes fire.  Immutable for the life of the process.
#[derive(Clone, Copy, Debug, PartialEq, Eq, Structural)]
pub struct ChimeWindow {
    pub start_hour: u8,
    pub end_hour: u8,
}

impl ChimeWindow {
    /// Both bounds are hours of a 24-hour day.
    pub open spec fn wf(self) -> bool {
        self.start_hour <= 23 && self.end_hour <= 23
    }
}

/// The next chime instant after `now`.  The candidate is the top of the
/// next clock hour — midnight on the following day when `now` lies in hour
/// 23 — and it is accepted when its hour still lies at or before the
/// window's end; otherwise the chime rolls over to the window's start hour
/// on the following day.  The midnight candidate's hour is zero, so it is
/// always accepted.
pub open spec fn spec_next_chime(now: LocalTime, w: ChimeWindow) -> LocalTime {
    if now.hour == 23 {
        LocalTime { hour: 0, minute: 0, second: 0, ..spec_next_day(now) }
    } else if now.hour + 1 <= w.end_hour {
        LocalTime { hour: (now.hour + 1) as u8, minute: 0, second: 0, ..now }
    } else {
        LocalTime { hour: w.start_hour, minute: 0, second: 0, ..spec_next_day(now) }
    }
}

/// Seconds from `now` to a `next` that falls on the same date or on the
/// following one, counted on the civil clock: every day is taken as 86400
/// seconds, assuming the UTC offset does not change between the two
/// instants.  Across a daylight-saving transition the physical wait differs
/// from this count by the offset change, and the chime that follows the
/// transition fires when the civil clock, not the elapsed time, says so.
pub open spec fn spec_seconds_until(now: LocalTime, next: LocalTime) -> int {
    if next.same_date(now) {
        next.second_of_day() - now.second_of_day()
    } else {
        DAY_SECONDS - now.second_of_day() + next.second_of_day()
    }
}

/// Computes the next chime instant after `now` within the window.  Left out
/// are only the instants on the last representable calendar day whose chime
/// would fall on the following day, which does not exist.
pub fn next_chime_time(now: &LocalTime, w: &ChimeWindow) -> (r: LocalTime)
    requires
        now.wf(),
        w.wf(),
        (now.hour == 23 || now.hour + 1 > w.end_hour) ==> !(now.year == MAX_YEAR && now.month
            == 12 && now.day == 31),
    ensures
        r == spec_next_chime(*now, *w),
        r.wf(),
{
    if now.hour == 23 {
        LocalTime { hour: 0, minute: 0, second: 0, ..next_day(now) }
    } else if now.hour + 1 <= w.end_hour {
        LocalTime { hour: now.hour + 1, minute: 0, second: 0, ..*now }
    } else {
        LocalTime { hour: w.start_hour, minute: 0, second: 0, ..next_day(now) }
    }
}

fn second_of_day_exec(t: &LocalTime) -> (r: u32)
    requires
        t.wf(),
    ensures
        r as int == t.second_of_day(),
{
    t.hour as u32 * 3600 + t.minute as u32 * 60 + t.second as u32
}

/// Seconds to sleep from `now` until `next`, for a `next` later the same
/// day or on the following day.  The count is civil time, as
/// [`spec_seconds_until`] states it: a UTC offset change between the two
/// instants is not accounted for.
pub fn seconds_until(now: &LocalTime, next: &LocalTime) -> (r: u64)
    requires
        now.wf(),
        next.wf(),
        next.same_date(*now) || next.same_date(spec_next_day(*now)),
        next.same_date(*now) ==> now.second_of_day() <= next.second_of_day(),
    ensures
        r == spec_seconds_until(*now, *next),
{
    let now_sec = second_of_day_exec(now);
    let next_sec = second_of_day_exec(next);
    if now.year == next.year && now.month == next.month && now.day == next.day {
        (next_sec - now_sec) as u64
    } else {
        DAY_SECONDS - now_sec as u64 + next_sec as u64
    }
}

/// One planned chime: the clock reading it was computed from, the chime
/// instant, and how long to sleep until it.
#[derive(Clone, Copy, Debug, PartialEq, Eq, Structural)]
pub struct ChimePlan {
    pub now: LocalTime,
    pub next: LocalTime,
    pub sleep_seconds: u64,
}

/// The clock readings for which no chime plan exists: the last representable
/// calendar day, with the chime falling on the day after it.
pub open spec fn plan_for_none(now: LocalTime, w: ChimeWindow) -> bool {
    now.year == MAX_YEAR && now.month == 12 && now.day == 31 && (now.hour == 23 || now.hour + 1
        > w.end_hour)
}

/// Plans the chime that follows the clock reading `now`.  A plan exists for
/// every reading but those on the last representable calendar day whose
/// chime would fall on the following, unrepresentable day; when it exists,
/// it holds the reading, the chime instant and the civil-time sleep.
pub fn plan_for(now: &LocalTime, w: &ChimeWindow) -> (p: Option<ChimePlan>)
    requires
        now.wf(),
        w.wf(),
    ensures
        p is Some <==> !plan_for_none(*now, *w),
        p matches Some(plan) ==> {
            &&& plan.now == *now
            &&& plan.next == spec_next_chime(*now, *w)
            &&& plan.next.wf()
            &&& plan.sleep_seconds == spec_seconds_until(*now, plan.next)
        },
{
    if (now.hour == 23 || now.hour + 1 > w.end_hour) && now.year == MAX_YEAR && now.month == 12
        && now.day == 31 {
        None
    } else {
        let next = next_chime_time(now, w);
        let sleep_seconds = seconds_until(now, &next);
        Some(ChimePlan { now: *now, next, sleep_seconds })
    }
}

/// Reads the local clock and hands the reading to [`plan_for`].  Whatever
/// instant the clock reports, the result is that instant's plan: present and
/// exact on every reading except those on the last representable calendar
/// day whose chime would fall on the following, unrepresentable day.
pub fn plan_next_chime(w: &ChimeWindow) -> (p: Option<ChimePlan>)
    requires
        w.wf(),
    ensures
        p matches Some(plan) ==> {
            &&& plan.now.wf()
            &&& plan.next == spec_next_chime(plan.now, *w)
            &&& plan.next.wf()
            &&& plan.sleep_seconds == spec_seconds_until(plan.now, plan.next)
        },
        p is None ==> exists|reading: LocalTime|
            reading.wf() && #[trigger] plan_for_none(reading, *w),
{
    let now = local_now();
    let p = plan_for(&now, w);
    proof {
        if p is None {
            assert(plan_for_none(now, *w));
        }
    }
    p
}

/// Law: a chime always falls exactly on the top of an hour.  When the next
/// hour boundary still lies inside the window it is chosen — on the same
/// date below hour 23, and at midnight on the following day from hour 23,
/// since midnight's hour zero lies inside every window; otherwise the chime
/// rolls over to the window's start hour on the following day — never to an
/// hour past the window's end.
pub proof fn lemma_chime_on_the_hour(now: LocalTime, w: ChimeWindow)
    requires
        now.wf(),
        w.wf(),
    ensures
        spec_next_chime(now, w).minute == 0,
        spec_next_chime(now, w).second == 0,
        now.hour == 23 ==> spec_next_chime(now, w).same_date(spec_next_day(now))
            && spec_next_chime(now, w).hour == 0,
        now.hour < 23 && now.hour + 1 <= w.end_hour ==> spec_next_chime(now, w).same_date(now)
            && spec_next_chime(now, w).hour == now.hour + 1,
        now.hour < 23 && now.hour + 1 > w.end_hour ==> spec_next_chime(now, w).same_date(
            spec_next_day(now),
        ) && spec_next_chime(now, w).hour == w.start_hour,
        spec_next_chime(now, w).hour <= w.end_hour || spec_next_chime(now, w).hour
            == w.start_hour,
{
}

} // verus!
