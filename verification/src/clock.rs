use vstd::prelude::*;

verus! {

/// Smallest year of a representable calendar date, as the calendar crate
/// bounds it.
pub const MIN_YEAR: i32 = -262143;

/// Largest year of a representable calendar date, as the calendar crate
/// bounds it.
pub const MAX_YEAR: i32 = 262142;

/// Seconds in one calendar day.
pub const DAY_SECONDS: u64 = 86400;

/// A wall-clock instant in local time, held as plain calendar fields.
#[derive(Clone, Copy, Debug, PartialEq, Eq, Structural)]
pub struct LocalTime {
    pub year: i32,
    pub month: u8,
    pub day: u8,
    pub hour: u8,
    pub minute: u8,
    pub second: u8,
}

/// Whether `y` is a leap year.  The year is shifted by 400000 — a multiple
/// of 400, so the classification is unchanged — to keep the remainders on
/// nonnegative values even for years before the common era.
pub open spec fn leap_year(y: int) -> bool {
    ((y + 400000) % 4 == 0 && (y + 400000) % 100 != 0) || (y + 400000) % 400 == 0
}

/// Days in `m`-th month of year `y`.
pub open spec fn days_in_month(y: int, m: int) -> int {
    if m == 2 {
        if leap_year(y) {
            29
        } else {
            28
        }
    } else if m == 4 || m == 6 || m == 9 || m == 11 {
        30
    } else {
        31
    }
}

impl LocalTime {
    /// A valid calendar date within the representable years, with a valid
    /// time of day.
    pub open spec fn wf(self) -> bool {
        &&& MIN_YEAR <= self.year <= MAX_YEAR
        &&& 1 <= self.month <= 12
        &&& 1 <= self.day <= days_in_month(self.year as int, self.month as int)
        &&& self.hour <= 23
        &&& self.minute <= 59
        &&& self.second <= 59
    }

    /// Seconds elapsed since this instant's midnight.
    pub open spec fn second_of_day(self) -> int {
        self.hour * 3600 + self.minute * 60 + self.second
    }

    /// Whether two instants fall on the same calendar date.
    pub open spec fn same_date(self, other: Self) -> bool {
        self.year == other.year && self.month == other.month && self.day == other.day
    }
}

/// The instant one calendar day later, at the same time of day, rolling the
/// month and the year over as the calendar requires.
pub open spec fn spec_next_day(t: LocalTime) -> LocalTime {
    if t.day < days_in_month(t.year as int, t.month as int) {
        LocalTime { day: (t.day + 1) as u8, ..t }
    } else if t.month < 12 {
        LocalTime { month: (t.month + 1) as u8, day: 1, ..t }
    } else {
        LocalTime { year: (t.year + 1) as i32, month: 1, day: 1, ..t }
    }
}

fn leap_year_exec(y: i32) -> (r: bool)
    requires
        MIN_YEAR <= y <= MAX_YEAR + 1,
    ensures
        r == leap_year(y as int),
{
    let shifted: u32 = (y + 400000) as u32;
    (shifted % 4 == 0 && shifted % 100 != 0) || shifted % 400 == 0
}

/// Days in `month` of `year`.
pub fn month_length(year: i32, month: u8) -> (r: u8)
    requires
        MIN_YEAR <= year <= MAX_YEAR + 1,
    ensures
        r as int == days_in_month(year as int, month as int),
{
    if month == 2 {
        if leap_year_exec(year) {
            29
        } else {
            28
        }
    } else if month == 4 || month == 6 || month == 9 || month == 11 {
        30
    } else {
        31
    }
}

/// Steps `t` one calendar day forward, keeping the time of day.  The last
/// representable day has no successor and is left out.
pub fn next_day(t: &LocalTime) -> (r: LocalTime)
    requires
        t.wf(),
        !(t.year == MAX_YEAR && t.month == 12 && t.day == 31),
    ensures
        r == spec_next_day(*t),
        r.wf(),
        r.second_of_day() == t.second_of_day(),
{
    if t.day < month_length(t.year, t.month) {
        LocalTime { day: t.day + 1, ..*t }
    } else if t.month < 12 {
        LocalTime { month: t.month + 1, day: 1, ..*t }
    } else {
        LocalTime { year: t.year + 1, month: 1, day: 1, ..*t }
    }
}

/// Relies on chrono::offset::Local::now together with chrono's Datelike and
/// Timelike accessors: a DateTime always carries a valid calendar date, with
/// the year between -262143 and 262142 (chrono's MIN_YEAR and MAX_YEAR), the
/// month 1 to 12, the day valid for that month, and a time of day with hour
/// 0 to 23, minute 0 to 59 and second 0 to 59.  The call itself aborts on a
/// system clock set before the Unix epoch or past chrono's representable
/// range, but within the last day of that range a positive UTC offset can
/// carry the local reading one year past MAX_YEAR without aborting; both
/// are environment conditions, some 260 millennia away, not reachable from
/// any input of this library.
#[verifier::external_body]
pub fn local_now() -> (t: LocalTime)
    ensures
        t.wf(),
{
    let now = chrono::offset::Local::now();
    LocalTime {
        year: chrono::Datelike::year(&now),
        month: chrono::Datelike::month(&now) as u8,
        day: chrono::Datelike::day(&now) as u8,
        hour: chrono::Timelike::hour(&now) as u8,
        minute: chrono::Timelike::minute(&now) as u8,
        second: chrono::Timelike::second(&now) as u8,
    }
}

} // verus!
