//! The decisions of the background scheduler tick: when prices are due for
//! a refresh, which summary schedules fire, which alert rules apply to which
//! investments and whether they trigger, and the status lines shown after a
//! refresh.
use vstd::prelude::*;

use crate::calculations::{wrap_i64, InvestmentMetrics};
use crate::clock::{utc_now, LocalDateTime, UtcInstant, CALENDAR_MAX_SECS, CALENDAR_MIN_SECS};
use crate::investment::{Investment, InvestmentStatus};
use crate::refresh::{count_active, count_missing, RefreshSummary};
use crate::schedule::{
    PercentThreshold, at_least_one, due_at_clock, due_spec, needs_no_local_date, schedule_wf, EventKind, EventRule, Frequency,
    TimeSchedule,
};
use crate::text::{concat, dec, push_decimal};

verus! {

/// `TimeDelta::minutes` accepts the interval (it panics beyond
/// `i64::MAX` milliseconds): the interval, cast to `i64`, times sixty stays
/// within `i64::MAX / 1000` seconds either way.
pub open spec fn refresh_interval_ok(interval_minutes: u64) -> bool {
    -9_223_372_036_854_775 <= wrap_i64(interval_minutes) * 60 <= 9_223_372_036_854_775
}

/// Whether `TimeDelta::minutes` accepts the interval.
pub fn refresh_interval_fits(interval_minutes: u64) -> (r: bool)
    ensures
        r == refresh_interval_ok(interval_minutes),
{
    let m = interval_minutes as i64;
    assert(m as int == wrap_i64(interval_minutes)) by {
        assert((interval_minutes as i64) as int == if interval_minutes <= 0x7fff_ffff_ffff_ffff {
            interval_minutes as int
        } else {
            interval_minutes - 0x1_0000_0000_0000_0000
        }) by (bit_vector);
    }
    let secs: i128 = m as i128 * 60;
    -9_223_372_036_854_775i128 <= secs && secs <= 9_223_372_036_854_775i128
}

/// Prices are due for a refresh: never refreshed, or at least the interval
/// (as cast to `i64` minutes) has passed since the last refresh.
pub open spec fn refresh_due_spec(last: Option<UtcInstant>, now: UtcInstant, interval_minutes: u64) -> bool {
    match last {
        None => true,
        Some(l) => now.total_nanos() - l.total_nanos() >= wrap_i64(interval_minutes) * 60
            * 1_000_000_000,
    }
}

/// Prices never refreshed are due at once; otherwise they are due exactly
/// when at least the interval has passed since the last refresh (an
/// interval beyond `i64::MAX` minutes counts as negative, as its `i64` cast
/// does, so it is always due).
pub proof fn law_refresh_after_interval(l: UtcInstant, now: UtcInstant, interval_minutes: u64)
    ensures
        refresh_due_spec(None, now, interval_minutes),
        interval_minutes <= i64::MAX ==> (refresh_due_spec(Some(l), now, interval_minutes) == (
        now.total_nanos() - l.total_nanos() >= interval_minutes * 60_000_000_000)),
        interval_minutes > i64::MAX && now.total_nanos() >= l.total_nanos() ==> refresh_due_spec(
            Some(l),
            now,
            interval_minutes,
        ),
{
}

/// Whether the configured refresh interval has passed since the last refresh.
pub fn due_for_refresh(last: Option<UtcInstant>, now: UtcInstant, interval_minutes: u64) -> (r: bool)
    requires
        refresh_interval_ok(interval_minutes),
    ensures
        r == refresh_due_spec(last, now, interval_minutes),
{
    match last {
        None => true,
        Some(l) => {
            let m = interval_minutes as i64;
            assert(m as int == wrap_i64(interval_minutes)) by {
                assert((interval_minutes as i64) as int == if interval_minutes <= 0x7fff_ffff_ffff_ffff {
                    interval_minutes as int
                } else {
                    interval_minutes - 0x1_0000_0000_0000_0000
                }) by (bit_vector);
            }
            let elapsed: i128 = (now.secs as i128 - l.secs as i128) * 1_000_000_000i128 + (now.nanos as i128
                - l.nanos as i128);
            elapsed >= (m as i128) * 60 * 1_000_000_000
        },
    }
}

/// `k` is among the indices `idx`.
pub open spec fn fired(idx: Seq<usize>, k: int) -> bool {
    exists|j: int| 0 <= j < idx.len() && idx[j] == k
}

/// Every schedule may be asked whether it is due.
pub open spec fn schedules_wf(s: Seq<TimeSchedule>) -> bool {
    forall|i: int| 0 <= i < s.len() ==> schedule_wf(#[trigger] s[i])
}

/// Whether every schedule may be asked whether it is due: the last run of
/// each enabled calendar-based schedule is a valid instant within the range
/// where its local date is computed.
pub fn schedules_ready(schedules: &Vec<TimeSchedule>) -> (r: bool)
    ensures
        r == schedules_wf(schedules@),
{
    let n = schedules.len();
    let mut i: usize = 0;
    while i < n
        invariant
            n == schedules@.len(),
            i <= n,
            forall|k: int| 0 <= k < i ==> schedule_wf(#[trigger] schedules@[k]),
        decreases n - i,
    {
        let s = &schedules[i];
        let calendar = s.enabled && !matches!(s.frequency, Frequency::EveryXHours(_));
        match s.last_run {
            Some(t) => {
                if calendar && !(t.nanos < 1_000_000_000 && CALENDAR_MIN_SECS <= t.secs && t.secs
                    <= CALENDAR_MAX_SECS) {
                    assert(!schedule_wf(schedules@[i as int]));
                    return false;
                }
            },
            None => {},
        }
        i = i + 1;
    }
    true
}

/// One scheduler step over the summary schedules, at the local moment `now`
/// with the UTC clock reading `clock`: `after` is `before` with the schedules
/// at the positions `idx` (in increasing order) fired, their last run set to
/// `clock`, and the others unchanged. A schedule fires exactly when it is
/// due at `now` and `clock` (for the local date of its last run, within a
/// day of its UTC date).
pub open spec fn fire_step(
    before: Seq<TimeSchedule>,
    after: Seq<TimeSchedule>,
    idx: Seq<usize>,
    now: LocalDateTime,
    clock: UtcInstant,
) -> bool {
    &&& after.len() == before.len()
    &&& forall|j: int, k: int| 0 <= j < k < idx.len() ==> idx[j] < idx[k]
    &&& forall|j: int| 0 <= j < idx.len() ==> #[trigger] idx[j] < before.len()
    &&& forall|k: int|
        0 <= k < before.len() && !fired(idx, k) ==> #[trigger] after[k] == before[k]
    &&& forall|k: int|
        0 <= k < before.len() && fired(idx, k) ==> #[trigger] after[k] == (TimeSchedule {
            last_run: Some(clock),
            ..before[k]
        })
    &&& forall|k: int| 0 <= k < before.len() ==> due_at_clock(#[trigger] before[k], now, clock, fired(idx, k))
    &&& forall|k: int|
        0 <= k < before.len() && needs_no_local_date(#[trigger] before[k]) ==> (fired(idx, k)
            == due_spec(before[k], now, clock, 0))
}

/// Checks each time schedule against the local moment `now`, with the UTC
/// clock reading `clock`; each that is due gets `clock` as its last run.
/// Returns the positions of the schedules that fired, in order.
pub fn fire_due_schedules_at(schedules: &mut Vec<TimeSchedule>, now: LocalDateTime, clock: UtcInstant) -> (idx: Vec<usize>)
    requires
        schedules_wf(old(schedules)@),
    ensures
        fire_step(old(schedules)@, final(schedules)@, idx@, now, clock),
{
    let ghost orig = schedules@;
    let n = schedules.len();
    let mut idx: Vec<usize> = Vec::new();
    let mut i: usize = 0;
    while i < n
        invariant
            n == orig.len(),
            schedules@.len() == n,
            i <= n,
            schedules_wf(orig),
            forall|k: int| i <= k < n ==> #[trigger] schedules@[k] == orig[k],
            forall|j: int, k: int| 0 <= j < k < idx@.len() ==> idx@[j] < idx@[k],
            forall|j: int| 0 <= j < idx@.len() ==> #[trigger] idx@[j] < i,
            forall|k: int| 0 <= k < i && !fired(idx@, k) ==> #[trigger] schedules@[k] == orig[k],
            forall|k: int|
                0 <= k < i && fired(idx@, k) ==> #[trigger] schedules@[k] == (TimeSchedule {
                    last_run: Some(clock),
                    ..orig[k]
                }),
            forall|k: int| 0 <= k < i ==> due_at_clock(#[trigger] orig[k], now, clock, fired(idx@, k)),
            forall|k: int|
                0 <= k < i && needs_no_local_date(#[trigger] orig[k]) ==> (fired(idx@, k) == due_spec(
                    orig[k],
                    now,
                    clock,
                    0,
                )),
        decreases n - i,
    {
        let ghost before = idx@;
        assert(schedule_wf(orig[i as int]));
        let due = schedules[i].is_due_at(now, clock);
        if due {
            schedules[i].last_run = Some(clock);
            idx.push(i);
            proof {
                assert(idx@[idx@.len() - 1] == i);
                assert forall|k: int| 0 <= k < i implies fired(idx@, k) == fired(before, k) by {
                    if fired(before, k) {
                        let j = choose|j: int| 0 <= j < before.len() && before[j] == k;
                        assert(idx@[j] == k);
                    }
                    if fired(idx@, k) {
                        let j = choose|j: int| 0 <= j < idx@.len() && idx@[j] == k;
                        if j < before.len() {
                            assert(before[j] == k);
                        }
                    }
                }
                assert(fired(idx@, i as int));
            }
        } else {
            proof {
                assert(!fired(idx@, i as int));
            }
        }
        i = i + 1;
    }
    idx
}

/// Checks each time schedule against the local moment `now`, reading the UTC
/// clock once: as `fire_due_schedules_at` with that reading, a valid instant
/// after the epoch.
pub fn fire_due_schedules(schedules: &mut Vec<TimeSchedule>, now: LocalDateTime) -> (idx: Vec<usize>)
    requires
        schedules_wf(old(schedules)@),
    ensures
        exists|clock: UtcInstant|
            clock.wf() && clock.secs >= 0 && #[trigger] fire_step(
                old(schedules)@,
                final(schedules)@,
                idx@,
                now,
                clock,
            ),
{
    let clock = utc_now();
    let idx = fire_due_schedules_at(schedules, now, clock);
    assert(fire_step(old(schedules)@, schedules@, idx@, now, clock));
    idx
}

/// A calendar-based schedule that fired is not due again while the local
/// date of that run is the current local date: across scheduler steps it
/// fires at most once per local day.
pub proof fn law_fired_once_per_local_day(
    before: Seq<TimeSchedule>,
    after: Seq<TimeSchedule>,
    idx: Seq<usize>,
    now: LocalDateTime,
    clock: UtcInstant,
    k: int,
    later: LocalDateTime,
    u: UtcInstant,
)
    requires
        fire_step(before, after, idx, now, clock),
        0 <= k < before.len(),
        fired(idx, k),
        !before[k].frequency.is_hourly(),
    ensures
        after[k].last_run == Some(clock),
        !due_spec(after[k], later, u, later.date as int),
{
    assert(after[k] == (TimeSchedule { last_run: Some(clock), ..before[k] }));
}

/// An interval-based schedule that fired is not due again until its
/// interval has passed since that run.
pub proof fn law_fired_hourly_waits(
    before: Seq<TimeSchedule>,
    after: Seq<TimeSchedule>,
    idx: Seq<usize>,
    now: LocalDateTime,
    clock: UtcInstant,
    k: int,
    hours: u32,
    later: LocalDateTime,
    u: UtcInstant,
    d: int,
)
    requires
        fire_step(before, after, idx, now, clock),
        0 <= k < before.len(),
        fired(idx, k),
        before[k].frequency == Frequency::EveryXHours(hours),
        u.total_nanos() - clock.total_nanos() < at_least_one(hours) * 3600 * 1_000_000_000,
    ensures
        !due_spec(after[k], later, u, d),
{
    assert(after[k] == (TimeSchedule { last_run: Some(clock), ..before[k] }));
}

/// The rule at position `r` applies to the investment at position `i`: the
/// rule is enabled and either targets every active investment, this one
/// being active, or this one by its ID.
pub open spec fn rule_applies(rules: Seq<EventRule>, invs: Seq<Investment>, r: int, i: int) -> bool {
    &&& 0 <= r < rules.len()
    &&& 0 <= i < invs.len()
    &&& rules[r].enabled
    &&& match rules[r].item_id {
        None => invs[i].status == InvestmentStatus::Active,
        Some(target) => target@ == invs[i].id@,
    }
}

/// Pair order: by rule first, then by investment.
pub open spec fn pair_lt(a: (usize, usize), b: (usize, usize)) -> bool {
    a.0 < b.0 || (a.0 == b.0 && a.1 < b.1)
}

/// The (rule, investment) pairs to evaluate in one tick: every enabled rule
/// against every investment it applies to, rule by rule, in portfolio order.
pub fn event_candidates(rules: &Vec<EventRule>, investments: &Vec<Investment>) -> (pairs: Vec<(usize, usize)>)
    ensures
        forall|j: int| 0 <= j < pairs@.len() ==> rule_applies(rules@, investments@, #[trigger] pairs@[j].0 as int, pairs@[j].1 as int),
        forall|r: int, i: int| rule_applies(rules@, investments@, r, i) ==> exists|j: int|
            0 <= j < pairs@.len() && #[trigger] pairs@[j] == (r as usize, i as usize),
        forall|j: int, k: int| 0 <= j < k < pairs@.len() ==> pair_lt(pairs@[j], pairs@[k]),
{
    let nr = rules.len();
    let ni = investments.len();
    let mut pairs: Vec<(usize, usize)> = Vec::new();
    let mut r: usize = 0;
    while r < nr
        invariant
            nr == rules@.len(),
            ni == investments@.len(),
            r <= nr,
            forall|j: int| 0 <= j < pairs@.len() ==> rule_applies(rules@, investments@, #[trigger] pairs@[j].0 as int, pairs@[j].1 as int),
            forall|j: int| 0 <= j < pairs@.len() ==> #[trigger] pairs@[j].0 < r,
            forall|rr: int, i: int| 0 <= rr < r && rule_applies(rules@, investments@, rr, i) ==> exists|j: int|
                0 <= j < pairs@.len() && #[trigger] pairs@[j] == (rr as usize, i as usize),
            forall|j: int, k: int| 0 <= j < k < pairs@.len() ==> pair_lt(pairs@[j], pairs@[k]),
        decreases nr - r,
    {
        let rule = &rules[r];
        let mut i: usize = 0;
        let ghost start = pairs@.len();
        while i < ni
            invariant
                nr == rules@.len(),
                ni == investments@.len(),
                r < nr,
                i <= ni,
                *rule == rules@[r as int],
                start <= pairs@.len(),
                forall|j: int| 0 <= j < pairs@.len() ==> rule_applies(rules@, investments@, #[trigger] pairs@[j].0 as int, pairs@[j].1 as int),
                forall|j: int| 0 <= j < start ==> #[trigger] pairs@[j].0 < r,
                forall|j: int| start <= j < pairs@.len() ==> (#[trigger] pairs@[j]).0 == r,
                forall|j: int| start <= j < pairs@.len() ==> (#[trigger] pairs@[j]).1 < i,
                forall|rr: int, ii: int| 0 <= rr < r && rule_applies(rules@, investments@, rr, ii) ==> exists|j: int|
                    0 <= j < pairs@.len() && #[trigger] pairs@[j] == (rr as usize, ii as usize),
                forall|ii: int| 0 <= ii < i && rule_applies(rules@, investments@, r as int, ii) ==> exists|j: int|
                    0 <= j < pairs@.len() && #[trigger] pairs@[j] == (r, ii as usize),
                forall|j: int, k: int| 0 <= j < k < pairs@.len() ==> pair_lt(pairs@[j], pairs@[k]),
            decreases ni - i,
        {
            if rule.enabled {
                let applies = match &rule.item_id {
                    None => investments[i].status == InvestmentStatus::Active,
                    Some(target) => *target == investments[i].id,
                };
                if applies {
                    let ghost before = pairs@;
                    pairs.push((r, i));
                    proof {
                        assert forall|j: int| start <= j < pairs@.len() implies (#[trigger] pairs@[j]).0 == r
                            && pairs@[j].1 < i + 1 by {
                            if j < before.len() {
                                assert(pairs@[j] == before[j]);
                                assert(before[j].0 == r && before[j].1 < i);
                            } else {
                                assert(pairs@[j] == (r, i));
                            }
                        }
                        assert forall|rr: int, ii: int| 0 <= rr < r && rule_applies(rules@, investments@, rr, ii) implies exists|j: int|
                            0 <= j < pairs@.len() && #[trigger] pairs@[j] == (rr as usize, ii as usize) by {
                            let j = choose|j: int| 0 <= j < before.len() && #[trigger] before[j] == (rr as usize, ii as usize);
                            assert(pairs@[j] == before[j]);
                        }
                        assert forall|ii: int| 0 <= ii < i + 1 && rule_applies(rules@, investments@, r as int, ii) implies exists|j: int|
                            0 <= j < pairs@.len() && #[trigger] pairs@[j] == (r, ii as usize) by {
                            if ii < i {
                                let j = choose|j: int| 0 <= j < before.len() && #[trigger] before[j] == (r, ii as usize);
                                assert(pairs@[j] == before[j]);
                            } else {
                                assert(pairs@[before.len() as int] == (r, ii as usize));
                            }
                        }
                    }
                }
            }
            i = i + 1;
        }
        r = r + 1;
    }
    pairs
}

/// Which rules apply to which investments: a disabled rule to none; an
/// enabled rule without a target to every active investment; an enabled rule
/// with a target to the investments with that ID, sold or not.
pub proof fn law_rule_targets(rules: Seq<EventRule>, invs: Seq<Investment>, r: int, i: int)
    requires
        0 <= r < rules.len(),
        0 <= i < invs.len(),
    ensures
        !rules[r].enabled ==> !rule_applies(rules, invs, r, i),
        rules[r].enabled && rules[r].item_id is None ==> (rule_applies(rules, invs, r, i) <==> invs[i].status
            == InvestmentStatus::Active),
        rules[r].enabled && rules[r].item_id is Some ==> (rule_applies(rules, invs, r, i) <==> rules[r].item_id.unwrap()@
            == invs[i].id@),
{
}

/// A rule that targets no investment in particular never applies to a sold
/// one.
pub proof fn law_untargeted_rules_skip_sold(rules: Seq<EventRule>, invs: Seq<Investment>, r: int, i: int)
    requires
        0 <= r < rules.len(),
        0 <= i < invs.len(),
        rules[r].item_id is None,
        invs[i].status == InvestmentStatus::Sold,
    ensures
        !rule_applies(rules, invs, r, i),
{
}

/// Whether an alert triggers for an investment, and the value it reports:
/// nothing without a current price; price rules compare the single-item
/// price, value and profit rules the metrics of the whole investment. The
/// two percentage rules take their comparison (`percent_hit`) from where the
/// percentage is computed; a move needs a positive previous price.
pub open spec fn event_hit_spec(
    kind: EventKind,
    inv: Investment,
    m: InvestmentMetrics,
    percent_hit: bool,
) -> Option<u64> {
    match inv.current_price {
        None => None,
        Some(cur) => {
            let hit = match kind {
                EventKind::PriceAbove(t) => cur > t,
                EventKind::PriceBelow(t) => cur < t,
                EventKind::ValueAbove(t) => m.current_value > t,
                EventKind::ValueBelow(t) => m.current_value < t,
                EventKind::ProfitAboveGp(t) => m.profit_loss > t,
                EventKind::ProfitAbovePercent(_) => percent_hit,
                EventKind::SignificantMove(_) => match inv.previous_price {
                    Some(p) => p > 0 && percent_hit,
                    None => false,
                },
            };
            let reported = match kind {
                EventKind::PriceAbove(_) | EventKind::PriceBelow(_) | EventKind::SignificantMove(_) => cur,
                _ => m.current_value,
            };
            if hit { Some(reported) } else { None }
        },
    }
}

/// Evaluates an alert condition for one investment with its metrics; returns
/// the value to report when it triggers.
pub fn event_hit(kind: EventKind, inv: &Investment, m: &InvestmentMetrics, percent_hit: bool) -> (r: Option<u64>)
    ensures
        r == event_hit_spec(kind, *inv, *m, percent_hit),
{
    let cur = match inv.current_price {
        Some(c) => c,
        None => return None,
    };
    let hit = match kind {
        EventKind::PriceAbove(t) => cur > t,
        EventKind::PriceBelow(t) => cur < t,
        EventKind::ValueAbove(t) => m.current_value > t,
        EventKind::ValueBelow(t) => m.current_value < t,
        EventKind::ProfitAboveGp(t) => m.profit_loss > t,
        EventKind::ProfitAbovePercent(_) => percent_hit,
        EventKind::SignificantMove(_) => match inv.previous_price {
            Some(p) => p > 0 && percent_hit,
            None => false,
        },
    };
    let reported = match kind {
        EventKind::PriceAbove(_) | EventKind::PriceBelow(_) | EventKind::SignificantMove(_) => cur,
        _ => m.current_value,
    };
    if hit { Some(reported) } else { None }
}

/// With a current price `cur`, each alert compares what its name says: the
/// single-item price for the price rules, the whole investment's value for
/// the value rules, its profit/loss for the gp profit rule.
pub proof fn law_alert_conditions(
    t: u64,
    g: i64,
    pt: PercentThreshold,
    inv: Investment,
    m: InvestmentMetrics,
    p: bool,
)
    requires
        inv.current_price is Some,
    ensures
        event_hit_spec(EventKind::PriceAbove(t), inv, m, p) is Some <==> inv.current_price.unwrap() > t,
        event_hit_spec(EventKind::PriceBelow(t), inv, m, p) is Some <==> inv.current_price.unwrap() < t,
        event_hit_spec(EventKind::ValueAbove(t), inv, m, p) is Some <==> m.current_value > t,
        event_hit_spec(EventKind::ValueBelow(t), inv, m, p) is Some <==> m.current_value < t,
        event_hit_spec(EventKind::ProfitAboveGp(g), inv, m, p) is Some <==> m.profit_loss > g,
        event_hit_spec(EventKind::ProfitAbovePercent(pt), inv, m, p) is Some <==> p,
        event_hit_spec(EventKind::SignificantMove(pt), inv, m, p) is Some <==> (p
                && inv.previous_price is Some && inv.previous_price.unwrap() > 0),
{
}

/// What a triggered alert reports: the single-item price for the price and
/// move rules, the whole investment's current value for the value and
/// profit rules.
pub proof fn law_alert_reports(kind: EventKind, inv: Investment, m: InvestmentMetrics, p: bool)
    requires
        event_hit_spec(kind, inv, m, p) is Some,
    ensures
        inv.current_price is Some,
        (kind is PriceAbove || kind is PriceBelow || kind is SignificantMove) ==> event_hit_spec(
            kind,
            inv,
            m,
            p,
        ) == Some(inv.current_price.unwrap()),
        (kind is ValueAbove || kind is ValueBelow || kind is ProfitAboveGp || kind is ProfitAbovePercent)
            ==> event_hit_spec(kind, inv, m, p) == Some(m.current_value),
{
}

/// An investment with no current price never triggers an alert.
pub proof fn law_no_price_no_alert(kind: EventKind, inv: Investment, m: InvestmentMetrics, p: bool)
    requires
        inv.current_price is None,
    ensures
        event_hit_spec(kind, inv, m, p) is None,
{
}

/// "Price above" and "price below" the same target never trigger together.
pub proof fn law_above_below_exclusive(t: u64, inv: Investment, m: InvestmentMetrics, p: bool)
    ensures
        !(event_hit_spec(EventKind::PriceAbove(t), inv, m, p) is Some && event_hit_spec(
            EventKind::PriceBelow(t),
            inv,
            m,
            p,
        ) is Some),
        !(event_hit_spec(EventKind::ValueAbove(t), inv, m, p) is Some && event_hit_spec(
            EventKind::ValueBelow(t),
            inv,
            m,
            p,
        ) is Some),
{
}

/// Records that the rule at position `r` triggered at `at`; nothing else
/// changes.
pub fn mark_rule_triggered(rules: &mut Vec<EventRule>, r: usize, at: UtcInstant)
    requires
        r < old(rules)@.len(),
    ensures
        final(rules)@ == old(rules)@.update(
            r as int,
            EventRule { last_triggered: Some(at), ..old(rules)@[r as int] },
        ),
{
    let mut rule = rules.remove(r);
    rule.last_triggered = Some(at);
    rules.insert(r, rule);
    assert(rules@ =~= old(rules)@.update(
        r as int,
        EventRule { last_triggered: Some(at), ..old(rules)@[r as int] },
    ));
}

/// What the dashboard counts over the portfolio.
#[derive(Debug, Clone, Copy, PartialEq, Eq, Structural)]
pub struct DashboardCounts {
    pub active: usize,
    pub missing_item_id: usize,
    /// The most recent price update among the active investments.
    pub last_updated: Option<UtcInstant>,
}

/// `t` is the latest price update among the active investments of `invs`.
pub open spec fn is_latest_update(invs: Seq<Investment>, t: UtcInstant) -> bool {
    &&& exists|i: int| 0 <= i < invs.len() && (#[trigger] invs[i]).status == InvestmentStatus::Active
        && invs[i].last_updated == Some(t)
    &&& forall|i: int| 0 <= i < invs.len() && (#[trigger] invs[i]).status == InvestmentStatus::Active
        && invs[i].last_updated is Some ==> !t.before(invs[i].last_updated.unwrap())
}

/// Some active investment has had a price update.
pub open spec fn any_update(invs: Seq<Investment>) -> bool {
    exists|i: int| 0 <= i < invs.len() && (#[trigger] invs[i]).status == InvestmentStatus::Active
        && invs[i].last_updated is Some
}

proof fn lemma_counts_bound(invs: Seq<Investment>)
    ensures
        count_active(invs) <= invs.len(),
        count_missing(invs) <= invs.len(),
    decreases invs.len(),
{
    if invs.len() > 0 {
        lemma_counts_bound(invs.drop_last());
    }
}

/// Active investments, those among them with no item ID, and the time of the
/// latest price update among them.
pub fn dashboard_counts(investments: &Vec<Investment>) -> (c: DashboardCounts)
    ensures
        c.active == count_active(investments@),
        c.missing_item_id == count_missing(investments@),
        c.last_updated is None <==> !any_update(investments@),
        c.last_updated matches Some(t) ==> is_latest_update(investments@, t),
{
    let ghost invs = investments@;
    let n = investments.len();
    let mut active: usize = 0;
    let mut missing: usize = 0;
    let mut latest: Option<UtcInstant> = None;
    let mut i: usize = 0;
    while i < n
        invariant
            invs == investments@,
            n == invs.len(),
            i <= n,
            active == count_active(invs.take(i as int)),
            missing == count_missing(invs.take(i as int)),
            latest is None <==> !any_update(invs.take(i as int)),
            latest matches Some(t) ==> is_latest_update(invs.take(i as int), t),
        decreases n - i,
    {
        proof {
            assert(invs.take(i + 1).drop_last() =~= invs.take(i as int));
            lemma_counts_bound(invs.take(i as int));
        }
        let inv = &investments[i];
        let ghost old_latest = latest;
        if inv.status == InvestmentStatus::Active {
            active = active + 1;
            if inv.item_id.is_none() {
                missing = missing + 1;
            }
            match inv.last_updated {
                Some(t) => {
                    let newer = match latest {
                        None => true,
                        Some(l) => l.is_before(&t),
                    };
                    if newer {
                        latest = Some(t);
                    }
                },
                None => {},
            }
        }
        proof {
            let pre = invs.take(i as int);
            let cur = invs.take(i + 1);
            assert forall|k: int| 0 <= k < i implies #[trigger] cur[k] == pre[k] by {}
            assert(cur[i as int] == invs[i as int]);
            if any_update(pre) {
                let k = choose|k: int| 0 <= k < pre.len() && (#[trigger] pre[k]).status
                    == InvestmentStatus::Active && pre[k].last_updated is Some;
                assert(cur[k] == pre[k]);
            }
            if any_update(cur) {
                let k = choose|k: int| 0 <= k < cur.len() && (#[trigger] cur[k]).status
                    == InvestmentStatus::Active && cur[k].last_updated is Some;
                if k < i {
                    assert(pre[k] == cur[k]);
                }
            }
            if let Some(t) = latest {
                if latest == old_latest {
                    let w = choose|w: int| 0 <= w < pre.len() && (#[trigger] pre[w]).status
                        == InvestmentStatus::Active && pre[w].last_updated == Some(t);
                    assert(cur[w] == pre[w]);
                    assert forall|k: int| 0 <= k < cur.len() && (#[trigger] cur[k]).status
                        == InvestmentStatus::Active && cur[k].last_updated is Some implies !t.before(
                        cur[k].last_updated.unwrap(),
                    ) by {
                        if k < i {
                            assert(pre[k] == cur[k]);
                        }
                    }
                } else {
                    assert(cur[i as int].last_updated == Some(t));
                    assert forall|k: int| 0 <= k < cur.len() && (#[trigger] cur[k]).status
                        == InvestmentStatus::Active && cur[k].last_updated is Some implies !t.before(
                        cur[k].last_updated.unwrap(),
                    ) by {
                        if k < i {
                            assert(pre[k] == cur[k]);
                        }
                    }
                }
            }
        }
        i = i + 1;
    }
    assert(invs.take(n as int) =~= invs);
    DashboardCounts { active, missing_item_id: missing, last_updated: latest }
}

/// The status line shown after a manual refresh, e.g.
/// "Updated 3 item(s), 1 with no item ID".
pub open spec fn refresh_message_spec(s: RefreshSummary) -> Seq<char> {
    let base = "Updated "@ + dec(s.updated as nat) + " item(s)"@;
    let with_missing = if s.missing_item_id > 0 {
        base + ", "@ + dec(s.missing_item_id as nat) + " with no item ID"@
    } else {
        base
    };
    if s.unresolved > 0 {
        with_missing + ", "@ + dec(s.unresolved as nat) + " the API didn't return a price for"@
    } else {
        with_missing
    }
}

/// The status line shown after a manual refresh.
pub fn refresh_message(s: &RefreshSummary) -> (r: String)
    ensures
        r@ == refresh_message_spec(*s),
{
    let mut out = String::from_str("Updated ");
    push_decimal(&mut out, s.updated as u64);
    out.append(" item(s)");
    if s.missing_item_id > 0 {
        out.append(", ");
        push_decimal(&mut out, s.missing_item_id as u64);
        out.append(" with no item ID");
    }
    if s.unresolved > 0 {
        out.append(", ");
        push_decimal(&mut out, s.unresolved as u64);
        out.append(" the API didn't return a price for");
    }
    out
}

} // verus!
