//! Instants with a fixed UTC offset, calendar dates and signed durations.
//!
//! An instant is counted in nanoseconds since 1970-01-01T00:00:00Z; a date
//! is counted in days since 1970-01-01 in the proleptic Gregorian calendar.
//! The supported span is that of `chrono::NaiveDate` (years -262143 to
//! 262142), which the conversions below call into.
use vstd::prelude::*;
use chrono::Datelike;

verus! {

pub const NANOS_PER_SECOND: i128 = 1_000_000_000;

pub const SECONDS_PER_DAY: i64 = 86_400;

/// Day number of -262143-01-01, the first date chrono represents.
pub const MIN_DAY: i64 = -96_465_292;

/// Day number of 262142-12-31, the last date chrono represents.
pub const MAX_DAY: i64 = 95_026_236;

pub const MIN_YEAR: i32 = -262_143;

pub const MAX_YEAR: i32 = 262_142;

/// chrono's `num_days_from_ce` of 1970-01-01.
pub const UNIX_EPOCH_CE_DAY: i64 = 719_163;

/// `i64::MAX` milliseconds, the bound of a chrono `TimeDelta`.
pub const MAX_DELTA_NANOS: i128 = 9_223_372_036_854_775_807_000_000;

/// Japan Standard Time, UTC+09:00.
pub const JST_OFFSET_SECONDS: i32 = 9 * 60 * 60;

// ---------------------------------------------------------------------
// Calendar arithmetic (proleptic Gregorian)
// ---------------------------------------------------------------------
pub open spec fn is_leap_year(y: int) -> bool {
    y % 4 == 0 && (y % 100 != 0 || y % 400 == 0)
}

pub open spec fn days_in_month(y: int, m: int) -> int {
    if m == 2 {
        if is_leap_year(y) {
            29
        } else {
            28
        }
    } else if m == 4 || m == 6 || m == 9 || m == 11 {
        30
    } else {
        31
    }
}

/// Days of the year before the first of month `m`.
pub open spec fn days_before_month(y: int, m: int) -> int {
    let base: int = if m == 1 {
        0
    } else if m == 2 {
        31
    } else if m == 3 {
        59
    } else if m == 4 {
        90
    } else if m == 5 {
        120
    } else if m == 6 {
        151
    } else if m == 7 {
        181
    } else if m == 8 {
        212
    } else if m == 9 {
        243
    } else if m == 10 {
        273
    } else if m == 11 {
        304
    } else {
        334
    };
    if m > 2 && is_leap_year(y) {
        base + 1
    } else {
        base
    }
}

/// A date that exists and that chrono represents.
pub open spec fn valid_civil(y: int, m: int, d: int) -> bool {
    &&& MIN_YEAR <= y <= MAX_YEAR
    &&& 1 <= m <= 12
    &&& 1 <= d <= days_in_month(y, m)
}

/// Days from 1970-01-01 to the given date.
pub open spec fn civil_to_days(y: int, m: int, d: int) -> int {
    let leaps = (y - 1) / 4 - (y - 1) / 100 + (y - 1) / 400;
    365 * (y - 1) + leaps + days_before_month(y, m) + d - 1 - 719_162
}

pub open spec fn day_in_range(day: int) -> bool {
    MIN_DAY <= day <= MAX_DAY
}

/// Day of the week, Monday being 0 (1970-01-01 was a Thursday).
pub open spec fn weekday_of(day: int) -> int {
    (day + 3) % 7
}

// ---------------------------------------------------------------------
// Instants
// ---------------------------------------------------------------------
/// Whole seconds since the epoch (rounded down) of an instant in nanoseconds.
pub open spec fn seconds_of(nanos: int) -> int {
    nanos / (NANOS_PER_SECOND as int)
}

pub open spec fn valid_offset(offset: int) -> bool {
    -86_400 < offset < 86_400
}

/// An instant and offset whose UTC and local dates chrono both represents.
pub open spec fn valid_moment(nanos: int, offset: int) -> bool {
    &&& valid_offset(offset)
    &&& day_in_range(seconds_of(nanos) / 86_400)
    &&& day_in_range((seconds_of(nanos) + offset) / 86_400)
}

/// A point in time together with the UTC offset it is shown in
/// (`chrono::DateTime<FixedOffset>`).
#[derive(Clone, Copy, Debug)]
pub struct Timestamp {
    nanos: i128,
    offset: i32,
}

impl Timestamp {
    #[verifier::type_invariant]
    spec fn inv(self) -> bool {
        valid_moment(self.nanos as int, self.offset as int)
    }

    /// Nanoseconds since 1970-01-01T00:00:00Z.
    pub closed spec fn instant(self) -> int {
        self.nanos as int
    }

    /// Offset east of UTC, in seconds.
    pub closed spec fn offset(self) -> int {
        self.offset as int
    }

    /// Seconds since the epoch as read on the local wall clock.
    pub open spec fn local_seconds(self) -> int {
        seconds_of(self.instant()) + self.offset()
    }

    /// The local date's day number.
    pub open spec fn local_day(self) -> int {
        self.local_seconds() / 86_400
    }

    /// Seconds since local midnight.
    pub open spec fn second_of_day(self) -> int {
        self.local_seconds() % 86_400
    }

    pub open spec fn hour(self) -> int {
        self.second_of_day() / 3600
    }

    pub open spec fn minute(self) -> int {
        (self.second_of_day() % 3600) / 60
    }

    pub open spec fn second(self) -> int {
        self.second_of_day() % 60
    }

    /// Nanoseconds past the whole second.
    pub open spec fn subsec_nanos(self) -> int {
        self.instant() % (NANOS_PER_SECOND as int)
    }

    /// The instant with the given offset, when chrono represents it.
    pub fn from_parts(nanos: i128, offset: i32) -> (r: Option<Timestamp>)
        ensures
            r is Some <==> valid_moment(nanos as int, offset as int),
            r matches Some(t) ==> t.instant() == nanos && t.offset() == offset,
    {
        if offset <= -86_400 || offset >= 86_400 {
            return None;
        }
        if nanos < -10_000_000_000_000_000_000_000 || nanos > 10_000_000_000_000_000_000_000 {
            return None;
        }
        let utc = seconds_from_nanos(nanos);
        let utc_day = day_from_seconds(utc as i128);
        let local_day = day_from_seconds(utc as i128 + offset as i128);
        if utc_day < MIN_DAY as i128 || utc_day > MAX_DAY as i128 || local_day < MIN_DAY as i128
            || local_day > MAX_DAY as i128 {
            return None;
        }
        Some(Timestamp { nanos, offset })
    }

    /// The invariant of every timestamp.
    pub fn valid(&self)
        ensures
            valid_moment(self.instant(), self.offset()),
    {
        proof {
            use_type_invariant(self);
        }
    }

    /// Nanoseconds since the epoch.
    pub fn instant_nanos(&self) -> (r: i128)
        ensures
            r == self.instant(),
    {
        self.nanos
    }

    /// Offset east of UTC, in seconds.
    pub fn offset_seconds(&self) -> (r: i32)
        ensures
            r == self.offset(),
    {
        self.offset
    }

    /// Whole seconds since the epoch (`DateTime::timestamp`).
    pub fn unix_seconds(&self) -> (r: i64)
        ensures
            r == seconds_of(self.instant()),
    {
        proof {
            use_type_invariant(self);
        }
        seconds_from_nanos(self.nanos) as i64
    }

    /// Seconds since the epoch on the local wall clock.
    pub fn local_seconds_exec(&self) -> (r: i64)
        ensures
            r == self.local_seconds(),
            day_in_range(r / 86_400),
    {
        proof {
            use_type_invariant(self);
        }
        seconds_from_nanos(self.nanos) as i64 + self.offset as i64
    }

    /// The local calendar date (`DateTime::date_naive`).
    pub fn date(&self) -> (r: Date)
        ensures
            r.day_number() == self.local_day(),
            day_in_range(r.day_number()),
    {
        let s = self.local_seconds_exec();
        let d = day_from_seconds(s as i128);
        Date { day: d as i64 }
    }

    /// Seconds since local midnight.
    pub fn second_of_day_exec(&self) -> (r: u32)
        ensures
            r == self.second_of_day(),
            r < 86_400,
    {
        let s = self.local_seconds_exec();
        let d = day_from_seconds(s as i128);
        (s as i128 - d * 86_400) as u32
    }

    /// Local hour, `0..=23`.
    pub fn hour_exec(&self) -> (r: u32)
        ensures
            r == self.hour(),
            r < 24,
    {
        self.second_of_day_exec() / 3600
    }

    /// Local minute, `0..=59`.
    pub fn minute_exec(&self) -> (r: u32)
        ensures
            r == self.minute(),
            r < 60,
    {
        (self.second_of_day_exec() % 3600) / 60
    }

    /// Local second, `0..=59`.
    pub fn second_exec(&self) -> (r: u32)
        ensures
            r == self.second(),
            r < 60,
    {
        self.second_of_day_exec() % 60
    }

    /// Nanoseconds past the whole second.
    pub fn subsec_nanos_exec(&self) -> (r: u32)
        ensures
            r == self.subsec_nanos(),
    {
        let s = self.unix_seconds();
        (self.nanos - s as i128 * NANOS_PER_SECOND) as u32
    }

    /// `self < other` as instants.
    pub fn before(&self, other: &Timestamp) -> (r: bool)
        ensures
            r == (self.instant() < other.instant()),
    {
        self.nanos < other.nanos
    }

    /// Whether both denote the same instant (chrono's `==`).
    pub fn same_instant(&self, other: &Timestamp) -> (r: bool)
        ensures
            r == (self.instant() == other.instant()),
    {
        self.nanos == other.nanos
    }

    /// `self + delta`, or `None` outside chrono's range.
    pub fn checked_add(&self, delta: TimeDelta) -> (r: Option<Timestamp>)
        ensures
            r is Some <==> valid_moment(self.instant() + delta.nanos(), self.offset()),
            r matches Some(t) ==> t.instant() == self.instant() + delta.nanos() && t.offset()
                == self.offset(),
    {
        proof {
            use_type_invariant(self);
            use_type_invariant(&delta);
        }
        Timestamp::from_parts(self.nanos + delta.nanos, self.offset)
    }

    /// `self - delta`, or `None` outside chrono's range.
    pub fn checked_sub(&self, delta: TimeDelta) -> (r: Option<Timestamp>)
        ensures
            r is Some <==> valid_moment(self.instant() - delta.nanos(), self.offset()),
            r matches Some(t) ==> t.instant() == self.instant() - delta.nanos() && t.offset()
                == self.offset(),
    {
        proof {
            use_type_invariant(self);
            use_type_invariant(&delta);
        }
        Timestamp::from_parts(self.nanos - delta.nanos, self.offset)
    }

    /// `self + delta` (chrono's `+`, which panics outside its range).
    pub fn add(&self, delta: TimeDelta) -> (r: Timestamp)
        requires
            valid_moment(self.instant() + delta.nanos(), self.offset()),
        ensures
            r.instant() == self.instant() + delta.nanos(),
            r.offset() == self.offset(),
    {
        self.checked_add(delta).unwrap()
    }

    /// `self - delta` (chrono's `-`, which panics outside its range).
    pub fn sub(&self, delta: TimeDelta) -> (r: Timestamp)
        requires
            valid_moment(self.instant() - delta.nanos(), self.offset()),
        ensures
            r.instant() == self.instant() - delta.nanos(),
            r.offset() == self.offset(),
    {
        self.checked_sub(delta).unwrap()
    }

    /// `self - earlier` as a duration.
    pub fn since(&self, earlier: &Timestamp) -> (r: TimeDelta)
        ensures
            r.nanos() == self.instant() - earlier.instant(),
    {
        proof {
            use_type_invariant(self);
            use_type_invariant(earlier);
        }
        TimeDelta { nanos: self.nanos - earlier.nanos }
    }
}

/// `floor(nanos / 10^9)` for the instants chrono represents.
fn seconds_from_nanos(nanos: i128) -> (r: i128)
    requires
        -10_000_000_000_000_000_000_000 <= nanos <= 10_000_000_000_000_000_000_000,
    ensures
        r == seconds_of(nanos as int),
        -10_000_000_000_000 <= r <= 10_000_000_000_000,
{
    let shifted = nanos + 10_000_000_000_000_000_000_000;
    shifted / NANOS_PER_SECOND - 10_000_000_000_000
}

/// `floor(secs / 86400)` for the seconds chrono represents.
fn day_from_seconds(secs: i128) -> (r: i128)
    requires
        -10_000_000_000_000 - 86_400 <= secs <= 10_000_000_000_000 + 86_400,
    ensures
        r == secs as int / 86_400,
{
    let shifted = secs + 17_280_000_000_000;
    shifted / 86_400 - 200_000_000
}

// ---------------------------------------------------------------------
// Durations
// ---------------------------------------------------------------------
/// A signed span of time (`chrono::TimeDelta`).
#[derive(Clone, Copy, Debug)]
pub struct TimeDelta {
    nanos: i128,
}

pub open spec fn delta_in_range(nanos: int) -> bool {
    -MAX_DELTA_NANOS <= nanos <= MAX_DELTA_NANOS
}

impl TimeDelta {
    #[verifier::type_invariant]
    spec fn inv(self) -> bool {
        delta_in_range(self.nanos as int)
    }

    /// The span in nanoseconds.
    pub closed spec fn nanos(self) -> int {
        self.nanos as int
    }

    pub fn zero() -> (r: TimeDelta)
        ensures
            r.nanos() == 0,
    {
        TimeDelta { nanos: 0 }
    }

    /// A span of whole seconds, or `None` beyond chrono's bound
    /// (`TimeDelta::try_seconds`).
    pub fn try_seconds(secs: i64) -> (r: Option<TimeDelta>)
        ensures
            r is Some <==> delta_in_range(secs * 1_000_000_000),
            r matches Some(d) ==> d.nanos() == secs * 1_000_000_000,
    {
        let n = secs as i128 * NANOS_PER_SECOND;
        if n < -MAX_DELTA_NANOS || n > MAX_DELTA_NANOS {
            None
        } else {
            Some(TimeDelta { nanos: n })
        }
    }

    /// `TimeDelta::try_minutes`.
    pub fn try_minutes(minutes: i64) -> (r: Option<TimeDelta>)
        ensures
            r is Some <==> delta_in_range(minutes * 60_000_000_000),
            r matches Some(d) ==> d.nanos() == minutes * 60_000_000_000,
    {
        let n = minutes as i128 * 60 * NANOS_PER_SECOND;
        if n < -MAX_DELTA_NANOS || n > MAX_DELTA_NANOS {
            None
        } else {
            Some(TimeDelta { nanos: n })
        }
    }

    /// `TimeDelta::try_hours`.
    pub fn try_hours(hours: i64) -> (r: Option<TimeDelta>)
        ensures
            r is Some <==> delta_in_range(hours * 3_600_000_000_000),
            r matches Some(d) ==> d.nanos() == hours * 3_600_000_000_000,
    {
        let n = hours as i128 * 3600 * NANOS_PER_SECOND;
        if n < -MAX_DELTA_NANOS || n > MAX_DELTA_NANOS {
            None
        } else {
            Some(TimeDelta { nanos: n })
        }
    }

    /// `TimeDelta::try_days`.
    pub fn try_days(days: i64) -> (r: Option<TimeDelta>)
        ensures
            r is Some <==> delta_in_range(days * 86_400_000_000_000),
            r matches Some(d) ==> d.nanos() == days * 86_400_000_000_000,
    {
        let n = days as i128 * 86_400 * NANOS_PER_SECOND;
        if n < -MAX_DELTA_NANOS || n > MAX_DELTA_NANOS {
            None
        } else {
            Some(TimeDelta { nanos: n })
        }
    }

    /// Seven days.
    pub fn week() -> (r: TimeDelta)
        ensures
            r.nanos() == 7 * 86_400_000_000_000,
    {
        TimeDelta { nanos: 7 * 86_400 * NANOS_PER_SECOND }
    }

    /// One day.
    pub fn one_day() -> (r: TimeDelta)
        ensures
            r.nanos() == 86_400_000_000_000,
    {
        TimeDelta { nanos: 86_400 * NANOS_PER_SECOND }
    }

    /// `self + other`, or `None` beyond chrono's bound.
    pub fn checked_add(&self, other: &TimeDelta) -> (r: Option<TimeDelta>)
        ensures
            r is Some <==> delta_in_range(self.nanos() + other.nanos()),
            r matches Some(d) ==> d.nanos() == self.nanos() + other.nanos(),
    {
        proof {
            use_type_invariant(self);
            use_type_invariant(other);
        }
        let n = self.nanos + other.nanos;
        if n < -MAX_DELTA_NANOS || n > MAX_DELTA_NANOS {
            None
        } else {
            Some(TimeDelta { nanos: n })
        }
    }

    /// The span in nanoseconds.
    pub fn as_nanos(&self) -> (r: i128)
        ensures
            r == self.nanos(),
            delta_in_range(r as int),
    {
        proof {
            use_type_invariant(self);
        }
        self.nanos
    }

    /// Whole days, rounded toward zero (`TimeDelta::num_days`).
    pub fn num_days(&self) -> (r: i64)
        ensures
            self.nanos() >= 0 ==> r == self.nanos() / 86_400_000_000_000,
            self.nanos() < 0 ==> r == -((-self.nanos()) / 86_400_000_000_000),
    {
        proof {
            use_type_invariant(self);
        }
        if self.nanos >= 0 {
            (self.nanos / 86_400_000_000_000) as i64
        } else {
            -(((0 - self.nanos) / 86_400_000_000_000) as i64)
        }
    }

    /// Whether both spans are equal.
    pub fn same(&self, other: &TimeDelta) -> (r: bool)
        ensures
            r == (self.nanos() == other.nanos()),
    {
        self.nanos == other.nanos
    }
}

// ---------------------------------------------------------------------
// Dates
// ---------------------------------------------------------------------
/// A calendar date (`chrono::NaiveDate`).
#[derive(Clone, Copy, Debug)]
pub struct Date {
    day: i64,
}

/// Day of the week.
#[derive(Clone, Copy, Debug, PartialEq, Eq, Structural)]
pub enum Weekday {
    Mon,
    Tue,
    Wed,
    Thu,
    Fri,
    Sat,
    Sun,
}

pub open spec fn weekday_index(w: Weekday) -> int {
    match w {
        Weekday::Mon => 0,
        Weekday::Tue => 1,
        Weekday::Wed => 2,
        Weekday::Thu => 3,
        Weekday::Fri => 4,
        Weekday::Sat => 5,
        Weekday::Sun => 6,
    }
}

/// The date with the given chrono day number (days from 0001-12-31).
#[verifier::external_body]
fn chrono_ymd_from_ce(ce: i32) -> (r: (i32, u32, u32))
    requires
        day_in_range(ce - UNIX_EPOCH_CE_DAY),
    ensures
        valid_civil(r.0 as int, r.1 as int, r.2 as int),
        civil_to_days(r.0 as int, r.1 as int, r.2 as int) == ce - UNIX_EPOCH_CE_DAY,
{
    let date = chrono::NaiveDate::from_num_days_from_ce_opt(ce).unwrap();
    (date.year(), date.month(), date.day())
}

/// chrono's day number of a date, when the date exists.
#[verifier::external_body]
fn chrono_ce_from_ymd(y: i32, m: u32, d: u32) -> (r: Option<i32>)
    ensures
        r is Some <==> valid_civil(y as int, m as int, d as int),
        r matches Some(ce) ==> ce - UNIX_EPOCH_CE_DAY == civil_to_days(
            y as int,
            m as int,
            d as int,
        ),
{
    match chrono::NaiveDate::from_ymd_opt(y, m, d) {
        Some(date) => Some(date.num_days_from_ce()),
        None => None,
    }
}

impl Date {
    #[verifier::type_invariant]
    spec fn inv(self) -> bool {
        day_in_range(self.day as int)
    }

    /// Days since 1970-01-01.
    pub closed spec fn day_number(self) -> int {
        self.day as int
    }

    pub open spec fn weekday_spec(self) -> int {
        weekday_of(self.day_number())
    }

    /// The date with the given day number, when chrono represents it.
    pub fn from_day_number(day: i64) -> (r: Option<Date>)
        ensures
            r is Some <==> day_in_range(day as int),
            r matches Some(d) ==> d.day_number() == day,
    {
        if day < MIN_DAY || day > MAX_DAY {
            None
        } else {
            Some(Date { day })
        }
    }

    /// `NaiveDate::from_ymd_opt`.
    pub fn from_ymd(y: i32, m: u32, d: u32) -> (r: Option<Date>)
        ensures
            r is Some <==> valid_civil(y as int, m as int, d as int),
            r matches Some(date) ==> date.day_number() == civil_to_days(
                y as int,
                m as int,
                d as int,
            ),
    {
        match chrono_ce_from_ymd(y, m, d) {
            Some(ce) => {
                let day = ce as i64 - UNIX_EPOCH_CE_DAY;
                Some(Date { day })
            },
            None => None,
        }
    }

    /// Days since 1970-01-01.
    pub fn day_number_exec(&self) -> (r: i64)
        ensures
            r == self.day_number(),
            day_in_range(r as int),
    {
        proof {
            use_type_invariant(self);
        }
        self.day
    }

    /// Year, month and day.
    pub fn ymd(&self) -> (r: (i32, u32, u32))
        ensures
            valid_civil(r.0 as int, r.1 as int, r.2 as int),
            civil_to_days(r.0 as int, r.1 as int, r.2 as int) == self.day_number(),
    {
        proof {
            use_type_invariant(self);
        }
        chrono_ymd_from_ce((self.day + UNIX_EPOCH_CE_DAY) as i32)
    }

    /// Day of the week.
    pub fn weekday(&self) -> (r: Weekday)
        ensures
            weekday_index(r) == self.weekday_spec(),
    {
        proof {
            use_type_invariant(self);
        }
        let k = (self.day + 3 + 700_000_000) % 7;
        if k == 0 {
            Weekday::Mon
        } else if k == 1 {
            Weekday::Tue
        } else if k == 2 {
            Weekday::Wed
        } else if k == 3 {
            Weekday::Thu
        } else if k == 4 {
            Weekday::Fri
        } else if k == 5 {
            Weekday::Sat
        } else {
            Weekday::Sun
        }
    }

    /// `NaiveDate::checked_add_days`.
    pub fn checked_add_days(&self, n: u64) -> (r: Option<Date>)
        ensures
            r is Some <==> day_in_range(self.day_number() + n),
            r matches Some(d) ==> d.day_number() == self.day_number() + n,
    {
        proof {
            use_type_invariant(self);
        }
        if n > 200_000_000 {
            return None;
        }
        Date::from_day_number(self.day + n as i64)
    }

    /// `NaiveDate::checked_sub_days`.
    pub fn checked_sub_days(&self, n: u64) -> (r: Option<Date>)
        ensures
            r is Some <==> day_in_range(self.day_number() - n),
            r matches Some(d) ==> d.day_number() == self.day_number() - n,
    {
        proof {
            use_type_invariant(self);
        }
        if n > 200_000_000 {
            return None;
        }
        Date::from_day_number(self.day - n as i64)
    }

    /// Whether both are the same date.
    pub fn same(&self, other: &Date) -> (r: bool)
        ensures
            r == (self.day_number() == other.day_number()),
    {
        self.day == other.day
    }
}

} // verus!

verus! {

impl PartialEq for Timestamp {
    fn eq(&self, other: &Timestamp) -> (r: bool) {
        self.nanos == other.nanos
    }
}

impl vstd::std_specs::cmp::PartialEqSpecImpl for Timestamp {
    open spec fn obeys_eq_spec() -> bool {
        true
    }

    open spec fn eq_spec(&self, other: &Timestamp) -> bool {
        self.instant() == other.instant()
    }
}

impl PartialEq for Date {
    fn eq(&self, other: &Date) -> (r: bool) {
        self.day == other.day
    }
}

impl vstd::std_specs::cmp::PartialEqSpecImpl for Date {
    open spec fn obeys_eq_spec() -> bool {
        true
    }

    open spec fn eq_spec(&self, other: &Date) -> bool {
        self.day_number() == other.day_number()
    }
}

impl PartialEq for TimeDelta {
    fn eq(&self, other: &TimeDelta) -> (r: bool) {
        self.nanos == other.nanos
    }
}

impl vstd::std_specs::cmp::PartialEqSpecImpl for TimeDelta {
    open spec fn obeys_eq_spec() -> bool {
        true
    }

    open spec fn eq_spec(&self, other: &TimeDelta) -> bool {
        self.nanos() == other.nanos()
    }
}

} // verus!

verus! {

/// Days from 0001-01-01 to the first day of year `y`.
pub open spec fn days_before_year(y: int) -> int {
    365 * (y - 1) + (y - 1) / 4 - (y - 1) / 100 + (y - 1) / 400
}

#[verifier::spinoff_prover]
#[verifier::rlimit(40)]
proof fn lemma_year_step(y: int)
    ensures
        days_before_year(y + 1) == days_before_year(y) + 365 + (if is_leap_year(y) {
            1int
        } else {
            0int
        }),
{
    assert(y / 4 - (y - 1) / 4 == (if y % 4 == 0 {
        1int
    } else {
        0int
    }));
    assert(y / 100 - (y - 1) / 100 == (if y % 100 == 0 {
        1int
    } else {
        0int
    }));
    assert(y / 400 - (y - 1) / 400 == (if y % 400 == 0 {
        1int
    } else {
        0int
    }));
    if y % 400 == 0 {
        assert(y % 100 == 0);
        assert(y % 4 == 0);
    } else if y % 100 == 0 {
        assert(y % 4 == 0);
    }
}

proof fn lemma_year_mono(a: int, b: int)
    requires
        a <= b,
    ensures
        days_before_year(a) + 365 * (b - a) <= days_before_year(b),
    decreases b - a,
{
    if a < b {
        lemma_year_mono(a, b - 1);
        lemma_year_step(b - 1);
    }
}

proof fn lemma_month_offsets(y: int, m1: int, m2: int)
    requires
        1 <= m1 < m2 <= 12,
    ensures
        days_before_month(y, m1) + days_in_month(y, m1) <= days_before_month(y, m2),
{
}

proof fn lemma_within_year(y: int, m: int, d: int)
    requires
        valid_civil(y, m, d),
    ensures
        0 <= days_before_month(y, m) + d - 1 < 365 + (if is_leap_year(y) {
            1int
        } else {
            0int
        }),
{
}

/// Distinct dates have distinct day numbers.
pub proof fn lemma_civil_injective(y1: int, m1: int, d1: int, y2: int, m2: int, d2: int)
    requires
        valid_civil(y1, m1, d1),
        valid_civil(y2, m2, d2),
        civil_to_days(y1, m1, d1) == civil_to_days(y2, m2, d2),
    ensures
        y1 == y2 && m1 == m2 && d1 == d2,
{
    lemma_within_year(y1, m1, d1);
    lemma_within_year(y2, m2, d2);
    if y1 < y2 {
        lemma_year_step(y1);
        lemma_year_mono(y1 + 1, y2);
    } else if y2 < y1 {
        lemma_year_step(y2);
        lemma_year_mono(y2 + 1, y1);
    } else {
        if m1 < m2 {
            lemma_month_offsets(y1, m1, m2);
        } else if m2 < m1 {
            lemma_month_offsets(y1, m2, m1);
        }
    }
}

} // verus!

verus! {

/// `(y, m, d)` is the date with day number `day`.
pub open spec fn is_civil_of(day: int, y: int, m: int, d: int) -> bool {
    valid_civil(y, m, d) && civil_to_days(y, m, d) == day
}

pub open spec fn has_year(day: int, y: int) -> bool {
    exists|m: int, d: int| #[trigger] is_civil_of(day, y, m, d)
}

pub open spec fn has_month(day: int, m: int) -> bool {
    exists|y: int, d: int| #[trigger] is_civil_of(day, y, m, d)
}

pub open spec fn has_mday(day: int, d: int) -> bool {
    exists|y: int, m: int| #[trigger] is_civil_of(day, y, m, d)
}

/// The year of the date with day number `day`.
pub open spec fn year_of(day: int) -> int {
    choose|y: int| has_year(day, y)
}

/// The month of the date with day number `day`.
pub open spec fn month_of(day: int) -> int {
    choose|m: int| has_month(day, m)
}

/// The day of month of the date with day number `day`.
pub open spec fn mday_of(day: int) -> int {
    choose|d: int| has_mday(day, d)
}

/// The fields of a date are those of its day number.
pub proof fn lemma_civil_fields(day: int, y: int, m: int, d: int)
    requires
        is_civil_of(day, y, m, d),
    ensures
        year_of(day) == y,
        month_of(day) == m,
        mday_of(day) == d,
{
    assert(has_year(day, y));
    let y2 = year_of(day);
    let (m2, d2) = choose|mm: int, dd: int| #[trigger] is_civil_of(day, y2, mm, dd);
    lemma_civil_injective(y, m, d, y2, m2, d2);
    assert(has_month(day, m));
    let m3 = month_of(day);
    let (y3, d3) = choose|yy: int, dd: int| #[trigger] is_civil_of(day, yy, m3, dd);
    lemma_civil_injective(y, m, d, y3, m3, d3);
    assert(has_mday(day, d));
    let d4 = mday_of(day);
    let (y4, m4) = choose|yy: int, mm: int| #[trigger] is_civil_of(day, yy, mm, d4);
    lemma_civil_injective(y, m, d, y4, m4, d4);
}

impl Date {
    pub open spec fn year(self) -> int {
        year_of(self.day_number())
    }

    pub open spec fn month(self) -> int {
        month_of(self.day_number())
    }

    pub open spec fn mday(self) -> int {
        mday_of(self.day_number())
    }

    /// Year, month and day, as spec fields.
    pub fn ymd_fields(&self) -> (r: (i32, u32, u32))
        ensures
            r.0 == self.year(),
            r.1 == self.month(),
            r.2 == self.mday(),
            valid_civil(r.0 as int, r.1 as int, r.2 as int),
    {
        let r = self.ymd();
        proof {
            lemma_civil_fields(self.day_number(), r.0 as int, r.1 as int, r.2 as int);
        }
        r
    }
}

} // verus!
