//! Time-based summary schedules and event-based alert rules.
use vstd::prelude::*;

use crate::clock::{local_date_of, utc_day, utc_now, LocalDateTime, TimeOfDay, UtcInstant, Weekday};
use crate::text::{dec, push_decimal};

verus! {

/// Cadence of a time-based portfolio summary.
#[derive(Debug, Clone, Copy, PartialEq, Eq, Structural)]
pub enum Frequency {
    Daily,
    EveryXDays(u32),
    Weekly,
    EveryOtherWeek,
    Monthly,
    EveryXHours(u32),
}

impl Frequency {
    pub open spec fn is_hourly(self) -> bool {
        self matches Frequency::EveryXHours(_)
    }

    /// Whether this frequency is gated by a local time of day.
    /// `EveryXHours` is purely interval-based and ignores it.
    pub fn uses_time_of_day(self) -> (r: bool)
        ensures
            r == !self.is_hourly(),
    {
        !matches!(self, Frequency::EveryXHours(_))
    }

    /// Whether this frequency is tied to a day of the week.
    pub fn uses_day_of_week(self) -> (r: bool)
        ensures
            r == (self == Frequency::Weekly || self == Frequency::EveryOtherWeek),
    {
        matches!(self, Frequency::Weekly | Frequency::EveryOtherWeek)
    }
}

/// `x.max(1)`.
pub open spec fn at_least_one(x: u32) -> int {
    if x == 0 { 1 } else { x as int }
}

/// A time-based summary schedule. `time_of_day` is ignored by `EveryXHours`;
/// `day_of_week` is only read by `Weekly` and `EveryOtherWeek`.
#[derive(Debug, Clone)]
pub struct TimeSchedule {
    pub id: String,
    pub name: String,
    pub frequency: Frequency,
    pub time_of_day: TimeOfDay,
    pub day_of_week: Weekday,
    pub enabled: bool,
    pub last_run: Option<UtcInstant>,
}

/// Whether a schedule fires at the local moment `now`, given the current UTC
/// instant `utc_now` and the local calendar date `last_date` of its last run
/// (both read only when there was a last run).
pub open spec fn due_spec(
    s: TimeSchedule,
    now: LocalDateTime,
    utc_now: UtcInstant,
    last_date: int,
) -> bool {
    if !s.enabled {
        false
    } else if let Frequency::EveryXHours(hours) = s.frequency {
        match s.last_run {
            None => true,
            Some(last) => utc_now.total_nanos() - last.total_nanos() >= at_least_one(hours) * 3600
                * 1_000_000_000,
        }
    } else if s.last_run is Some && last_date == now.date {
        false
    } else if now.time.earlier_than(s.time_of_day) {
        false
    } else {
        match s.frequency {
            Frequency::Daily => true,
            Frequency::EveryXDays(x) => s.last_run is None || now.date - last_date >= at_least_one(x),
            Frequency::Weekly => now.weekday == s.day_of_week,
            Frequency::EveryOtherWeek => now.weekday == s.day_of_week && (s.last_run is None
                || now.date - last_date >= 13),
            Frequency::Monthly => s.last_run is None || now.date - last_date >= 28,
            Frequency::EveryXHours(_) => true,
        }
    }
}

/// `r` is whether `s` is due at the local moment `now` for some reading of
/// the clock and of the local date of its last run.
pub open spec fn due_for_some_clock(s: TimeSchedule, now: LocalDateTime, r: bool) -> bool {
    exists|u: UtcInstant, d: int|
        {
            &&& u.wf()
            &&& (s.last_run matches Some(l) ==> utc_day(l) - 1 <= d <= utc_day(l) + 1)
            &&& #[trigger] due_spec(s, now, u, d) == r
        }
}

/// `r` is whether `s` is due at the local moment `now` and the UTC instant
/// `u`, for some local date of its last run (within a day of its UTC date).
pub open spec fn due_at_clock(s: TimeSchedule, now: LocalDateTime, u: UtcInstant, r: bool) -> bool {
    exists|d: int|
        {
            &&& (s.last_run matches Some(l) ==> utc_day(l) - 1 <= d <= utc_day(l) + 1)
            &&& #[trigger] due_spec(s, now, u, d) == r
        }
}

/// The local date of the last run is never read: the schedule is disabled,
/// interval-based, or has never run.
pub open spec fn needs_no_local_date(s: TimeSchedule) -> bool {
    !s.enabled || s.frequency.is_hourly() || s.last_run is None
}

/// What a schedule needs for `is_due` to be defined: the last run of an
/// enabled calendar-based schedule is a valid instant within the range where
/// its local date is computed.
pub open spec fn schedule_wf(s: TimeSchedule) -> bool {
    s.enabled && !s.frequency.is_hourly() ==> (s.last_run matches Some(t) ==> t.wf()
        && t.in_calendar_range())
}

impl TimeSchedule {
    /// Whether the schedule fires at `now`, given the current UTC instant and
    /// the local date of the last run.
    pub fn is_due_given(&self, now: &LocalDateTime, utc_now: UtcInstant, last_date: i32) -> (r: bool)
        ensures
            r == due_spec(*self, *now, utc_now, last_date as int),
    {
        if !self.enabled {
            return false;
        }
        if let Frequency::EveryXHours(hours) = self.frequency {
            return match self.last_run {
                None => true,
                Some(last) => {
                    let elapsed: i128 = (utc_now.secs as i128 - last.secs as i128) * 1_000_000_000i128
                        + (utc_now.nanos as i128 - last.nanos as i128);
                    let h: i128 = if hours == 0 { 1 } else { hours as i128 };
                    elapsed >= h * 3600 * 1_000_000_000
                },
            };
        }
        if self.last_run.is_some() && last_date == now.date {
            return false;
        }
        if now.time.is_earlier_than(&self.time_of_day) {
            return false;
        }
        let since: i64 = now.date as i64 - last_date as i64;
        match self.frequency {
            Frequency::Daily => true,
            Frequency::EveryXDays(x) => {
                let min: i64 = if x == 0 { 1 } else { x as i64 };
                self.last_run.is_none() || since >= min
            },
            Frequency::Weekly => now.weekday == self.day_of_week,
            Frequency::EveryOtherWeek => now.weekday == self.day_of_week && (self.last_run.is_none()
                || since >= 13),
            Frequency::Monthly => self.last_run.is_none() || since >= 28,
            Frequency::EveryXHours(_) => true,
        }
    }

    /// Whether this schedule is due to fire at the local moment `now` when the
    /// UTC clock reads `clock` (used by `EveryXHours`). The local date of the
    /// last run is read through the machine's time zone.
    pub fn is_due_at(&self, now: LocalDateTime, clock: UtcInstant) -> (r: bool)
        requires
            schedule_wf(*self),
        ensures
            due_at_clock(*self, now, clock, r),
            needs_no_local_date(*self) ==> r == due_spec(*self, now, clock, 0),
    {
        let hourly = matches!(self.frequency, Frequency::EveryXHours(_));
        let d: i32 = match self.last_run {
            Some(last) => if self.enabled && !hourly {
                local_date_of(last)
            } else {
                0
            },
            None => 0,
        };
        let r = self.is_due_given(&now, clock, d);
        proof {
            let dd: int = match self.last_run {
                Some(last) => if self.enabled && !hourly { d as int } else { utc_day(last) },
                None => d as int,
            };
            assert(due_spec(*self, now, clock, dd) == r);
        }
        r
    }

    /// Whether this schedule is due to fire at the local moment `now`. The
    /// current UTC instant (for `EveryXHours`) and the local date of the last
    /// run are read from the clock and the machine's time zone.
    pub fn is_due(&self, now: LocalDateTime) -> (r: bool)
        requires
            schedule_wf(*self),
        ensures
            due_for_some_clock(*self, now, r),
            self.last_run is None ==> r == due_spec(*self, now, UtcInstant { secs: 0, nanos: 0 }, 0),
            !self.enabled ==> !r,
    {
        let hourly = matches!(self.frequency, Frequency::EveryXHours(_));
        let u = if self.enabled && hourly && self.last_run.is_some() {
            utc_now()
        } else {
            UtcInstant { secs: 0, nanos: 0 }
        };
        let r = self.is_due_at(now, u);
        proof {
            let d = choose|d: int|
                {
                    &&& (self.last_run matches Some(l) ==> utc_day(l) - 1 <= d <= utc_day(l) + 1)
                    &&& #[trigger] due_spec(*self, now, u, d) == r
                };
            assert(due_spec(*self, now, u, d) == r);
        }
        r
    }
}

/// A disabled schedule never fires.
pub proof fn law_disabled_never_due(s: TimeSchedule, now: LocalDateTime, u: UtcInstant, d: int)
    requires
        !s.enabled,
    ensures
        !due_spec(s, now, u, d),
{
}

/// A calendar-based schedule never fires twice on the same local day: once it
/// has run on the date of `now`, it is not due.
pub proof fn law_once_per_local_day(s: TimeSchedule, now: LocalDateTime, u: UtcInstant)
    requires
        !s.frequency.is_hourly(),
        s.last_run is Some,
    ensures
        !due_spec(s, now, u, now.date as int),
{
}

/// An interval-based (`EveryXHours`) schedule depends neither on the local
/// time of day, nor on the weekday, nor on the local date of its last run.
pub proof fn law_hourly_ignores_calendar(
    s: TimeSchedule,
    now1: LocalDateTime,
    now2: LocalDateTime,
    u: UtcInstant,
    d1: int,
    d2: int,
    t: TimeOfDay,
    w: Weekday,
)
    requires
        s.frequency.is_hourly(),
    ensures
        due_spec(s, now1, u, d1) == due_spec(
            TimeSchedule { time_of_day: t, day_of_week: w, ..s },
            now2,
            u,
            d2,
        ),
{
}

/// An enabled calendar-based schedule that has never run is due exactly when
/// its time of day has come and, for the weekly cadences, it is the chosen
/// weekday: however many days since a run its cadence asks for, with no run
/// yet nothing is waited for. The clock and the date of a (nonexistent) last
/// run play no part.
pub proof fn law_never_run_due_from_time_of_day(
    s: TimeSchedule,
    now: LocalDateTime,
    u: UtcInstant,
    d: int,
)
    requires
        s.enabled,
        !s.frequency.is_hourly(),
        s.last_run is None,
    ensures
        due_spec(s, now, u, d) == (!now.time.earlier_than(s.time_of_day) && ((s.frequency
            == Frequency::Weekly || s.frequency == Frequency::EveryOtherWeek) ==> now.weekday
            == s.day_of_week)),
{
}

/// An enabled interval-based schedule that has never run is due at once,
/// whatever the time, weekday or clock.
pub proof fn law_never_run_hourly_due(s: TimeSchedule, now: LocalDateTime, u: UtcInstant, d: int)
    requires
        s.enabled,
        s.frequency.is_hourly(),
        s.last_run is None,
    ensures
        due_spec(s, now, u, d),
{
}

/// An enabled calendar-based schedule whose last run was on an earlier (or
/// another) local date `d` is due, once its time of day has come, when its
/// cadence has elapsed: at once for daily; after `max(x, 1)` days for every
/// X days; on the chosen weekday for weekly; on the chosen weekday at least
/// 13 days on for every other week; at least 28 days on for monthly.
pub proof fn law_cadence_after_a_run(s: TimeSchedule, now: LocalDateTime, u: UtcInstant, d: int)
    requires
        s.enabled,
        !s.frequency.is_hourly(),
        s.last_run is Some,
        d != now.date,
    ensures
        now.time.earlier_than(s.time_of_day) ==> !due_spec(s, now, u, d),
        !now.time.earlier_than(s.time_of_day) ==> due_spec(s, now, u, d) == match s.frequency {
            Frequency::Daily => true,
            Frequency::EveryXDays(x) => now.date - d >= (if x == 0 { 1 } else { x as int }),
            Frequency::Weekly => now.weekday == s.day_of_week,
            Frequency::EveryOtherWeek => now.weekday == s.day_of_week && now.date - d >= 13,
            Frequency::Monthly => now.date - d >= 28,
            Frequency::EveryXHours(_) => false,
        },
{
}

/// An enabled `EveryXHours(h)` schedule that has run at `l` is due exactly
/// when at least `max(h, 1)` hours have passed since then on the clock `u`,
/// whatever the local time, weekday or dates.
pub proof fn law_hourly_due_after_interval(
    s: TimeSchedule,
    h: u32,
    l: UtcInstant,
    now: LocalDateTime,
    u: UtcInstant,
    d: int,
)
    requires
        s.enabled,
        s.frequency == Frequency::EveryXHours(h),
        s.last_run == Some(l),
    ensures
        due_spec(s, now, u, d) == (u.total_nanos() - l.total_nanos() >= (if h == 0 { 1 } else { h as int })
            * 3_600_000_000_000),
{
}

/// A calendar-based schedule is never due before its time of day.
pub proof fn law_not_before_time_of_day(s: TimeSchedule, now: LocalDateTime, u: UtcInstant, d: int)
    requires
        !s.frequency.is_hourly(),
        now.time.earlier_than(s.time_of_day),
    ensures
        !due_spec(s, now, u, d),
{
}

/// An enabled daily schedule that has not run today is due from its time of
/// day on.
pub proof fn law_daily_due_after_time(s: TimeSchedule, now: LocalDateTime, u: UtcInstant, d: int)
    requires
        s.enabled,
        s.frequency == Frequency::Daily,
        s.last_run is None || d != now.date,
        !now.time.earlier_than(s.time_of_day),
    ensures
        due_spec(s, now, u, d),
{
}

/// The threshold of a percentage alert, carried as the bit pattern of the
/// IEEE-754 binary64 number the user entered. The library only carries it;
/// percentages are compared where they are computed.
#[derive(Debug, Clone, Copy, PartialEq, Eq, Structural)]
pub struct PercentThreshold {
    pub bits: u64,
}

/// Event-based alert conditions, evaluated against an investment's latest
/// known price and profit each scheduler tick.
#[derive(Debug, Clone, Copy, PartialEq, Eq, Structural)]
pub enum EventKind {
    PriceAbove(u64),
    PriceBelow(u64),
    ValueAbove(u64),
    ValueBelow(u64),
    ProfitAboveGp(i64),
    ProfitAbovePercent(PercentThreshold),
    /// Percentage move (absolute value) since the previously recorded price.
    SignificantMove(PercentThreshold),
}

/// The decimal text of an `i64` (`to_string`).
pub open spec fn signed_dec(v: i64) -> Seq<char> {
    if v < 0 { seq!['-'] + dec((0 - v) as nat) } else { dec(v as nat) }
}

/// How an alert condition on whole gold pieces is described, e.g.
/// "Price above 500 gp"; the percentage conditions are described where the
/// percentage is formatted.
pub open spec fn describe_whole_spec(kind: EventKind) -> Option<Seq<char>> {
    match kind {
        EventKind::PriceAbove(p) => Some("Price above "@ + dec(p as nat) + " gp"@),
        EventKind::PriceBelow(p) => Some("Price below "@ + dec(p as nat) + " gp"@),
        EventKind::ValueAbove(p) => Some("Value above "@ + dec(p as nat) + " gp (whole investment)"@),
        EventKind::ValueBelow(p) => Some("Value below "@ + dec(p as nat) + " gp (whole investment)"@),
        EventKind::ProfitAboveGp(p) => Some("Profit above "@ + signed_dec(p) + " gp"@),
        EventKind::ProfitAbovePercent(_) => None,
        EventKind::SignificantMove(_) => None,
    }
}

/// Describes an alert condition on whole gold pieces; nothing for the
/// percentage conditions.
pub fn describe_whole(kind: EventKind) -> (r: Option<String>)
    ensures
        r matches Some(t) ==> describe_whole_spec(kind) == Some(t@),
        r is None ==> describe_whole_spec(kind) is None,
{
    match kind {
        EventKind::PriceAbove(p) => {
            let mut s = String::from_str("Price above ");
            push_decimal(&mut s, p);
            s.append(" gp");
            Some(s)
        },
        EventKind::PriceBelow(p) => {
            let mut s = String::from_str("Price below ");
            push_decimal(&mut s, p);
            s.append(" gp");
            Some(s)
        },
        EventKind::ValueAbove(p) => {
            let mut s = String::from_str("Value above ");
            push_decimal(&mut s, p);
            s.append(" gp (whole investment)");
            Some(s)
        },
        EventKind::ValueBelow(p) => {
            let mut s = String::from_str("Value below ");
            push_decimal(&mut s, p);
            s.append(" gp (whole investment)");
            Some(s)
        },
        EventKind::ProfitAboveGp(p) => {
            let mut s = String::from_str("Profit above ");
            let ghost head = s@;
            if p < 0 {
                s.append("-");
                let mag: u64 = (0 - (p as i128)) as u64;
                push_decimal(&mut s, mag);
                proof {
                    reveal_strlit("-");
                    assert(mag as nat == (0 - p) as nat);
                    assert(s@ =~= head + signed_dec(p));
                }
            } else {
                push_decimal(&mut s, p as u64);
                assert(s@ =~= head + signed_dec(p));
            }
            s.append(" gp");
            Some(s)
        },
        _ => None,
    }
}

/// An alert rule; `item_id` of `None` applies it to every active investment,
/// `Some(id)` to the investment with that ID.
#[derive(Debug, Clone)]
pub struct EventRule {
    pub id: String,
    pub name: String,
    pub item_id: Option<String>,
    pub kind: EventKind,
    pub enabled: bool,
    pub last_triggered: Option<UtcInstant>,
}

/// All schedules and rules, as persisted together.
#[derive(Debug, Clone)]
pub struct ScheduleStore {
    pub time_schedules: Vec<TimeSchedule>,
    pub event_rules: Vec<EventRule>,
}

impl Default for ScheduleStore {
    fn default() -> (r: ScheduleStore)
        ensures
            r.time_schedules@.len() == 0,
            r.event_rules@.len() == 0,
    {
        ScheduleStore { time_schedules: Vec::new(), event_rules: Vec::new() }
    }
}

} // verus!
