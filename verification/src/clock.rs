//! Points in time, as the library holds them, and the calls into `chrono`
//! that read the clock or convert between calendar forms.
use vstd::prelude::*;

use chrono::{DateTime, Datelike, Local, NaiveDate, Utc};

verus! {

/// Nanoseconds in one second.
pub const NANOS_PER_SEC: i64 = 1_000_000_000;

/// The earliest second whose local calendar date is defined: one day after
/// the first instant `chrono` represents (a local offset is under one day).
pub const CALENDAR_MIN_SECS: i64 = -8_334_601_228_800;

/// The latest second whose local calendar date is defined: one day before the
/// last instant `chrono` represents.
pub const CALENDAR_MAX_SECS: i64 = 8_210_266_790_399;

/// A UTC timestamp: whole seconds since the Unix epoch plus the nanoseconds
/// within that second (`DateTime<Utc>` without its leap-second form).
#[derive(Debug, Clone, Copy, PartialEq, Eq, Structural)]
pub struct UtcInstant {
    pub secs: i64,
    pub nanos: u32,
}

impl UtcInstant {
    pub open spec fn wf(self) -> bool {
        self.nanos < 1_000_000_000
    }

    /// The instant as one count of nanoseconds since the epoch.
    pub open spec fn total_nanos(self) -> int {
        self.secs * 1_000_000_000 + self.nanos
    }

    /// Within the range where local calendar dates are computed.
    pub open spec fn in_calendar_range(self) -> bool {
        CALENDAR_MIN_SECS <= self.secs <= CALENDAR_MAX_SECS
    }

    /// Within the range of `DateTime<Utc>` (years -262143 to 262142).
    pub open spec fn in_chrono_range(self) -> bool {
        -8_334_601_315_200 <= self.secs <= 8_210_266_876_799
    }

    /// `self` is strictly earlier than `other`.
    pub open spec fn before(self, other: UtcInstant) -> bool {
        self.secs < other.secs || (self.secs == other.secs && self.nanos < other.nanos)
    }

    /// Strictly earlier, by comparing the fields.
    pub fn is_before(&self, other: &UtcInstant) -> (r: bool)
        ensures
            r == self.before(*other),
    {
        self.secs < other.secs || (self.secs == other.secs && self.nanos < other.nanos)
    }
}

/// A wall-clock time of day, as `NaiveTime` holds it: seconds since midnight
/// and a fraction in nanoseconds (at least one billion only within a leap
/// second).
#[derive(Debug, Clone, Copy, PartialEq, Eq, Structural)]
pub struct TimeOfDay {
    pub secs: u32,
    pub frac: u32,
}

impl TimeOfDay {
    pub open spec fn wf(self) -> bool {
        self.secs < 86_400 && self.frac < 2_000_000_000
    }

    /// `self < other` in the order of `NaiveTime`.
    pub open spec fn earlier_than(self, other: TimeOfDay) -> bool {
        self.secs < other.secs || (self.secs == other.secs && self.frac < other.frac)
    }

    /// Midnight, 00:00:00.
    pub fn midnight() -> (r: TimeOfDay)
        ensures
            r.secs == 0,
            r.frac == 0,
    {
        TimeOfDay { secs: 0, frac: 0 }
    }

    /// `NaiveTime::from_hms_opt(hour, minute, 0)`.
    pub fn from_hm(hour: u32, minute: u32) -> (r: Option<TimeOfDay>)
        ensures
            r == (if hour < 24 && minute < 60 {
                Some(TimeOfDay { secs: (hour * 3600 + minute * 60) as u32, frac: 0 })
            } else {
                None::<TimeOfDay>
            }),
    {
        if hour < 24 && minute < 60 {
            Some(TimeOfDay { secs: hour * 3600 + minute * 60, frac: 0 })
        } else {
            None
        }
    }

    /// `self < other` in the order of `NaiveTime`.
    pub fn is_earlier_than(&self, other: &TimeOfDay) -> (r: bool)
        ensures
            r == self.earlier_than(*other),
    {
        self.secs < other.secs || (self.secs == other.secs && self.frac < other.frac)
    }

    /// The hour of the day.
    pub fn hour(&self) -> (r: u32)
        ensures
            r == self.secs / 3600,
    {
        self.secs / 3600
    }

    /// The minute within the hour.
    pub fn minute(&self) -> (r: u32)
        ensures
            r == (self.secs / 60) % 60,
    {
        (self.secs / 60) % 60
    }
}

/// A day of the week, Monday first.
#[derive(Debug, Clone, Copy, PartialEq, Eq, Structural)]
pub enum Weekday {
    Mon,
    Tue,
    Wed,
    Thu,
    Fri,
    Sat,
    Sun,
}

/// A local wall-clock moment: the calendar date (days from the common era,
/// day 1 being 0001-01-01), its weekday and the time of day.
#[derive(Debug, Clone, Copy, PartialEq, Eq, Structural)]
pub struct LocalDateTime {
    pub date: i32,
    pub weekday: Weekday,
    pub time: TimeOfDay,
}

/// What `format("%Y-%m-%d")` renders for the UTC calendar date of an instant.
pub uninterp spec fn utc_ymd(secs: i64, nanos: u32) -> Seq<char>;

/// What `NaiveDate::parse_from_str(text, "%Y-%m-%d")` gives, taken to midnight
/// UTC, as seconds since the epoch.
pub uninterp spec fn ymd_midnight_secs(text: Seq<char>) -> Option<i64>;

/// Reads the system clock (`Utc::now()`). The value depends on the moment
/// of the call; the contract only states that it is a valid instant after
/// the epoch within the range of `DateTime<Utc>` (`chrono` builds it with
/// `DateTime::from_timestamp(..).unwrap()` from
/// `SystemTime::duration_since(UNIX_EPOCH)`, and panics on a clock set before
/// 1970, which is not stated here).
#[verifier::external_body]
pub(crate) fn utc_now() -> (r: UtcInstant)
    ensures
        r.wf(),
        r.secs >= 0,
        r.in_chrono_range(),
{
    let now = Utc::now();
    UtcInstant { secs: now.timestamp(), nanos: now.timestamp_subsec_nanos() }
}

/// The UTC calendar date of an instant, in days from the common era
/// (1970-01-01 is day 719,163).
pub open spec fn utc_day(at: UtcInstant) -> int {
    at.secs / 86_400 + 719_163
}

/// The local calendar date (days from the common era) of a UTC instant:
/// `with_timezone(&Local).date_naive().num_days_from_ce()`. The value depends
/// on the machine's time zone; what holds whatever the zone is that a local
/// offset (a `FixedOffset`) is under one day, so the local date is the UTC
/// date or the day before or after it.
#[verifier::external_body]
pub(crate) fn local_date_of(at: UtcInstant) -> (r: i32)
    requires
        at.wf(),
        at.in_calendar_range(),
    ensures
        utc_day(at) - 1 <= r <= utc_day(at) + 1,
{
    let utc = DateTime::from_timestamp(at.secs, at.nanos).unwrap();
    utc.with_timezone(&Local).date_naive().num_days_from_ce()
}

/// The UTC calendar date of an instant as `YYYY-MM-DD`
/// (`format("%Y-%m-%d").to_string()` of the `DateTime<Utc>`).
#[verifier::external_body]
pub(crate) fn utc_date_text(at: UtcInstant) -> (r: String)
    requires
        at.wf(),
        at.in_chrono_range(),
    ensures
        r@ == utc_ymd(at.secs, at.nanos),
{
    let utc = DateTime::from_timestamp(at.secs, at.nanos).unwrap();
    utc.format("%Y-%m-%d").to_string()
}

/// `NaiveDate::parse_from_str(text, "%Y-%m-%d")`, taken to midnight UTC
/// (`and_hms_opt(0, 0, 0)` and `and_utc()`). The instant is a whole number of
/// days from the epoch, as `DateTime::timestamp` computes it from the date,
/// and lies within the range of `DateTime<Utc>`.
#[verifier::external_body]
pub(crate) fn parse_ymd_midnight(text: &str) -> (r: Option<UtcInstant>)
    ensures
        r == (match ymd_midnight_secs(text@) {
            Some(s) => Some(UtcInstant { secs: s, nanos: 0 }),
            None => None::<UtcInstant>,
        }),
        r matches Some(t) ==> t.secs % 86_400 == 0 && t.in_chrono_range(),
{
    match NaiveDate::parse_from_str(text, "%Y-%m-%d") {
        Ok(d) => match d.and_hms_opt(0, 0, 0) {
            Some(dt) => Some(UtcInstant { secs: dt.and_utc().timestamp(), nanos: 0 }),
            None => None,
        },
        Err(_) => None,
    }
}

/// Today's local date as `YYYY-MM-DD` (`Local::now().format("%Y-%m-%d")`).
/// It depends on the clock and the machine's time zone; nothing is stated.
#[verifier::external_body]
pub(crate) fn local_today_text() -> (r: String)
{
    Local::now().format("%Y-%m-%d").to_string()
}

} // verus!
