//! Profit/loss arithmetic for one investment and for the whole portfolio.
//! The percentages the user interface shows are the ratio of two of these
//! integers and are computed where they are displayed.
use vstd::prelude::*;

use crate::clock::{utc_now, UtcInstant};
use crate::investment::{Investment, InvestmentStatus};

verus! {

/// Nanoseconds in one day.
pub open spec fn nanos_per_day() -> int {
    86_400_000_000_000
}

/// Whole days from `start` to `end`, truncated toward zero
/// (`(end - start).num_days()` on two `DateTime<Utc>`).
pub open spec fn days_between(start: UtcInstant, end: UtcInstant) -> int {
    let d = end.total_nanos() - start.total_nanos();
    if d >= 0 {
        d / nanos_per_day()
    } else {
        -((-d) / nanos_per_day())
    }
}

/// The value of a `u64` once cast with `as i64` (two's complement wrap).
pub open spec fn wrap_i64(x: u64) -> int {
    if x <= i64::MAX { x as int } else { x - 0x1_0000_0000_0000_0000 }
}

/// The per-unit price an investment is valued at: the sale price of a sold
/// item, the latest known price of an active one, the purchase price where
/// neither is known.
pub open spec fn price_now(inv: Investment) -> u64 {
    match inv.status {
        InvestmentStatus::Sold => match inv.sold_price {
            Some(p) => p,
            None => inv.purchase_price,
        },
        InvestmentStatus::Active => match inv.current_price {
            Some(p) => p,
            None => inv.purchase_price,
        },
    }
}

pub open spec fn total_cost_spec(inv: Investment) -> int {
    inv.purchase_price * inv.quantity
}

pub open spec fn current_value_spec(inv: Investment) -> int {
    price_now(inv) * inv.quantity
}

/// The profit or loss: value less cost, each as cast to `i64`.
pub open spec fn profit_loss_spec(inv: Investment) -> int {
    wrap_i64(current_value_spec(inv) as u64) - wrap_i64(total_cost_spec(inv) as u64)
}

/// The end of the holding period: the sale date, else the given `now`.
pub open spec fn holding_end(inv: Investment, now: UtcInstant) -> UtcInstant {
    match inv.sold_date {
        Some(d) => d,
        None => now,
    }
}

/// The arithmetic of `metrics_for` stays in range (it panics otherwise):
/// both products fit in `u64` and the difference of their `i64` casts fits
/// in `i64`.
pub open spec fn metrics_in_range(inv: Investment) -> bool {
    &&& total_cost_spec(inv) <= u64::MAX
    &&& current_value_spec(inv) <= u64::MAX
    &&& i64::MIN <= profit_loss_spec(inv) <= i64::MAX
}

/// Derived numbers for one investment.
#[derive(Debug, Clone, Copy)]
pub struct InvestmentMetrics {
    pub total_cost: u64,
    pub current_value: u64,
    pub profit_loss: i64,
    pub days_held: i64,
}

/// The metrics of `inv` with the holding period ending at `now` unless sold.
pub open spec fn metrics_match(m: InvestmentMetrics, inv: Investment, now: UtcInstant) -> bool {
    &&& m.total_cost == total_cost_spec(inv)
    &&& m.current_value == current_value_spec(inv)
    &&& m.profit_loss == profit_loss_spec(inv)
    &&& m.days_held == days_between(inv.purchase_date, holding_end(inv, now))
}

proof fn lemma_wrap_i64(x: u64)
    ensures
        (x as i64) as int == wrap_i64(x),
{
    assert((x as i64) as int == if x <= 0x7fff_ffff_ffff_ffff {
        x as int
    } else {
        x - 0x1_0000_0000_0000_0000
    }) by (bit_vector);
}

/// Whole days between two instants, truncated toward zero.
pub fn days_from_to(start: UtcInstant, end: UtcInstant) -> (r: i64)
    requires
        start.wf(),
        end.wf(),
    ensures
        r == days_between(start, end),
{
    let d: i128 = (end.secs as i128 - start.secs as i128) * 1_000_000_000i128 + (end.nanos as i128
        - start.nanos as i128);
    let per_day: i128 = 86_400_000_000_000;
    assert(d == end.total_nanos() - start.total_nanos());
    if d >= 0 {
        let q = d / per_day;
        assert(q <= 0x1_0000_0000_0000_0000 * 1_000_000_000 / 86_400_000_000_000 + 1) by {
            assert(d < 0x1_0000_0000_0000_0000 * 1_000_000_000 + 1_000_000_000);
        }
        q as i64
    } else {
        let q = (0 - d) / per_day;
        assert(q <= 0x1_0000_0000_0000_0000 * 1_000_000_000 / 86_400_000_000_000 + 1) by {
            assert(0 - d < 0x1_0000_0000_0000_0000 * 1_000_000_000 + 1_000_000_000);
        }
        (0 - q) as i64
    }
}

/// Total cost, current value, profit/loss and days held of one investment,
/// with the holding period of an unsold item ending at `now`. For sold
/// items the current value uses the recorded sale price.
pub fn metrics_at(inv: &Investment, now: UtcInstant) -> (m: InvestmentMetrics)
    requires
        inv.wf(),
        now.wf(),
        metrics_in_range(*inv),
    ensures
        metrics_match(m, *inv, now),
{
    let total_cost = inv.purchase_price * inv.quantity;
    let price_now = match inv.status {
        InvestmentStatus::Sold => match inv.sold_price {
            Some(p) => p,
            None => inv.purchase_price,
        },
        InvestmentStatus::Active => match inv.current_price {
            Some(p) => p,
            None => inv.purchase_price,
        },
    };
    let current_value = price_now * inv.quantity;
    proof {
        lemma_wrap_i64(current_value);
        lemma_wrap_i64(total_cost);
    }
    let profit_loss = current_value as i64 - total_cost as i64;
    let end_date = match inv.sold_date {
        Some(d) => d,
        None => now,
    };
    let days_held = days_from_to(inv.purchase_date, end_date);
    InvestmentMetrics { total_cost, current_value, profit_loss, days_held }
}

/// The metrics of one investment, with the holding period of an unsold item
/// ending at the current time (read from the clock).
pub fn metrics_for(inv: &Investment) -> (m: InvestmentMetrics)
    requires
        inv.wf(),
        metrics_in_range(*inv),
    ensures
        m.total_cost == total_cost_spec(*inv),
        m.current_value == current_value_spec(*inv),
        m.profit_loss == profit_loss_spec(*inv),
        inv.sold_date matches Some(d) ==> m.days_held == days_between(inv.purchase_date, d),
        exists|now: UtcInstant| now.wf() && #[trigger] metrics_match(m, *inv, now),
{
    let now = match inv.sold_date {
        Some(d) => d,
        None => utc_now(),
    };
    let m = metrics_at(inv, now);
    assert(metrics_match(m, *inv, now));
    m
}

/// Portfolio-wide statistics. The percentage and the average holding
/// period are the ratios `total_profit_loss / total_invested` and
/// `total_holding_days / count`.
#[derive(Debug, Clone)]
pub struct PortfolioStats {
    pub total_invested: u64,
    pub current_value: u64,
    pub total_profit_loss: i64,
    pub best_investment: Option<(String, i64)>,
    pub worst_investment: Option<(String, i64)>,
    pub total_holding_days: i64,
    pub count: usize,
}

pub open spec fn sum_cost(invs: Seq<Investment>) -> int
    decreases invs.len(),
{
    if invs.len() == 0 { 0 } else { sum_cost(invs.drop_last()) + total_cost_spec(invs.last()) }
}

pub open spec fn sum_value(invs: Seq<Investment>) -> int
    decreases invs.len(),
{
    if invs.len() == 0 { 0 } else { sum_value(invs.drop_last()) + current_value_spec(invs.last()) }
}

pub open spec fn sum_profit_loss(invs: Seq<Investment>) -> int
    decreases invs.len(),
{
    if invs.len() == 0 {
        0
    } else {
        sum_profit_loss(invs.drop_last()) + profit_loss_spec(invs.last())
    }
}

pub open spec fn sum_days(invs: Seq<Investment>, now: UtcInstant) -> int
    decreases invs.len(),
{
    if invs.len() == 0 {
        0
    } else {
        sum_days(invs.drop_last(), now) + days_between(
            invs.last().purchase_date,
            holding_end(invs.last(), now),
        )
    }
}

/// Every running total of `portfolio_stats` stays in range: each record's own
/// arithmetic, the sums of costs and values within `u64`, and every prefix
/// sum of profit/loss and of days held within `i64`.
pub open spec fn stats_in_range(invs: Seq<Investment>, now: UtcInstant) -> bool {
    &&& forall|i: int| 0 <= i < invs.len() ==> metrics_in_range(#[trigger] invs[i])
    &&& sum_cost(invs) <= u64::MAX
    &&& sum_value(invs) <= u64::MAX
    &&& forall|k: int|
        0 <= k <= invs.len() ==> i64::MIN <= #[trigger] sum_profit_loss(invs.take(k)) <= i64::MAX
    &&& forall|k: int|
        0 <= k <= invs.len() ==> i64::MIN <= #[trigger] sum_days(invs.take(k), now) <= i64::MAX
}

/// `i` is the first position holding the greatest profit/loss.
pub open spec fn is_first_best(invs: Seq<Investment>, i: int) -> bool {
    &&& 0 <= i < invs.len()
    &&& forall|j: int| 0 <= j < invs.len() ==> profit_loss_spec(#[trigger] invs[j]) <= profit_loss_spec(invs[i])
    &&& forall|j: int| 0 <= j < i ==> profit_loss_spec(#[trigger] invs[j]) < profit_loss_spec(invs[i])
}

/// `i` is the first position holding the smallest profit/loss.
pub open spec fn is_first_worst(invs: Seq<Investment>, i: int) -> bool {
    &&& 0 <= i < invs.len()
    &&& forall|j: int| 0 <= j < invs.len() ==> profit_loss_spec(#[trigger] invs[j]) >= profit_loss_spec(invs[i])
    &&& forall|j: int| 0 <= j < i ==> profit_loss_spec(#[trigger] invs[j]) > profit_loss_spec(invs[i])
}

/// The statistics of `invs` with unsold holdings ending at `now`.
pub open spec fn stats_match(s: PortfolioStats, invs: Seq<Investment>, now: UtcInstant) -> bool {
    &&& s.count == invs.len()
    &&& s.total_invested == sum_cost(invs)
    &&& s.current_value == sum_value(invs)
    &&& s.total_profit_loss == sum_profit_loss(invs)
    &&& s.total_holding_days == sum_days(invs, now)
    &&& (invs.len() == 0 <==> s.best_investment is None)
    &&& (invs.len() == 0 <==> s.worst_investment is None)
    &&& (s.best_investment matches Some(b) ==> exists|i: int|
        is_first_best(invs, i) && b.0@ == invs[i].item_name@ && b.1 == profit_loss_spec(invs[i]))
    &&& (s.worst_investment matches Some(w) ==> exists|i: int|
        is_first_worst(invs, i) && w.0@ == invs[i].item_name@ && w.1 == profit_loss_spec(invs[i]))
}

proof fn lemma_take_step(invs: Seq<Investment>, k: int)
    requires
        0 <= k < invs.len(),
    ensures
        invs.take(k + 1).drop_last() == invs.take(k),
        invs.take(k + 1).last() == invs[k],
{
    assert(invs.take(k + 1).drop_last() =~= invs.take(k));
}

proof fn lemma_sums_monotone(invs: Seq<Investment>, k: int)
    requires
        0 <= k <= invs.len(),
    ensures
        sum_cost(invs.take(k)) <= sum_cost(invs),
        sum_value(invs.take(k)) <= sum_value(invs),
    decreases invs.len() - k,
{
    if k < invs.len() {
        lemma_sums_monotone(invs, k + 1);
        lemma_take_step(invs, k);
    } else {
        assert(invs.take(k) =~= invs);
    }
}

/// Aggregates statistics over every investment (active and sold), with the
/// holding period of unsold items ending at `now`.
pub fn portfolio_stats_at(investments: &Vec<Investment>, now: UtcInstant) -> (s: PortfolioStats)
    requires
        crate::investment::all_wf(investments@),
        now.wf(),
        stats_in_range(investments@, now),
    ensures
        stats_match(s, investments@, now),
{
    let ghost invs = investments@;
    let n = investments.len();
    let mut total_invested: u64 = 0;
    let mut current_value: u64 = 0;
    let mut total_profit_loss: i64 = 0;
    let mut total_days: i64 = 0;
    let mut best: Option<(String, i64)> = None;
    let mut worst: Option<(String, i64)> = None;
    let ghost mut best_i: int = 0;
    let ghost mut worst_i: int = 0;
    let mut i: usize = 0;
    assert(invs.take(0) =~= Seq::<Investment>::empty());
    while i < n
        invariant
            invs == investments@,
            n == invs.len(),
            i <= n,
            crate::investment::all_wf(invs),
            now.wf(),
            stats_in_range(invs, now),
            total_invested == sum_cost(invs.take(i as int)),
            current_value == sum_value(invs.take(i as int)),
            total_profit_loss == sum_profit_loss(invs.take(i as int)),
            total_days == sum_days(invs.take(i as int), now),
            (i == 0) <==> best is None,
            (i == 0) <==> worst is None,
            best matches Some(b) ==> {
                &&& is_first_best(invs.take(i as int), best_i)
                &&& b.0@ == invs[best_i].item_name@
                &&& b.1 == profit_loss_spec(invs[best_i])
            },
            worst matches Some(w) ==> {
                &&& is_first_worst(invs.take(i as int), worst_i)
                &&& w.0@ == invs[worst_i].item_name@
                &&& w.1 == profit_loss_spec(invs[worst_i])
            },
        decreases n - i,
    {
        let inv = &investments[i];
        proof {
            lemma_take_step(invs, i as int);
            lemma_sums_monotone(invs, i + 1);
            assert(metrics_in_range(invs[i as int]));
            assert(i64::MIN <= sum_profit_loss(invs.take(i + 1)) <= i64::MAX);
            assert(i64::MIN <= sum_days(invs.take(i + 1), now) <= i64::MAX);
        }
        let m = metrics_at(inv, now);
        total_invested = total_invested + m.total_cost;
        current_value = current_value + m.current_value;
        total_profit_loss = total_profit_loss + m.profit_loss;
        total_days = total_days + m.days_held;

        let take_best = match &best {
            None => true,
            Some(b) => m.profit_loss > b.1,
        };
        if take_best {
            best = Some((inv.item_name.clone(), m.profit_loss));
            proof {
                best_i = i as int;
            }
        }
        let take_worst = match &worst {
            None => true,
            Some(w) => m.profit_loss < w.1,
        };
        if take_worst {
            worst = Some((inv.item_name.clone(), m.profit_loss));
            proof {
                worst_i = i as int;
            }
        }
        proof {
            let t = invs.take(i + 1);
            assert forall|j: int| 0 <= j < t.len() implies #[trigger] t[j] == invs[j] by {}
        }
        i = i + 1;
    }
    assert(invs.take(n as int) =~= invs);
    PortfolioStats {
        total_invested,
        current_value,
        total_profit_loss,
        best_investment: best,
        worst_investment: worst,
        total_holding_days: total_days,
        count: n,
    }
}

/// Aggregates statistics over every investment, with the holding period of
/// unsold items ending at the current time (the clock is read once).
pub fn portfolio_stats(investments: &Vec<Investment>) -> (s: PortfolioStats)
    requires
        crate::investment::all_wf(investments@),
        forall|now: UtcInstant|
            now.wf() && now.secs >= 0 && now.in_chrono_range() ==> #[trigger] stats_in_range(investments@, now),
    ensures
        exists|now: UtcInstant|
            now.wf() && now.secs >= 0 && now.in_chrono_range() && #[trigger] stats_match(s, investments@, now),
{
    let now = utc_now();
    let s = portfolio_stats_at(investments, now);
    assert(stats_match(s, investments@, now));
    s
}

/// The arithmetic of `metrics_at` stays in range for `inv`.
pub fn metrics_fit(inv: &Investment) -> (r: bool)
    ensures
        r == metrics_in_range(*inv),
{
    let price_now = match inv.status {
        InvestmentStatus::Sold => match inv.sold_price {
            Some(p) => p,
            None => inv.purchase_price,
        },
        InvestmentStatus::Active => match inv.current_price {
            Some(p) => p,
            None => inv.purchase_price,
        },
    };
    proof {
        let a = inv.purchase_price as int;
        let b = price_now as int;
        let q = inv.quantity as int;
        assert(a * q <= 0xffff_ffff_ffff_ffff * 0xffff_ffff_ffff_ffff) by (nonlinear_arith)
            requires
                0 <= a <= 0xffff_ffff_ffff_ffff,
                0 <= q <= 0xffff_ffff_ffff_ffff,
        ;
        assert(b * q <= 0xffff_ffff_ffff_ffff * 0xffff_ffff_ffff_ffff) by (nonlinear_arith)
            requires
                0 <= b <= 0xffff_ffff_ffff_ffff,
                0 <= q <= 0xffff_ffff_ffff_ffff,
        ;
    }
    let cost: u128 = inv.purchase_price as u128 * inv.quantity as u128;
    let value: u128 = price_now as u128 * inv.quantity as u128;
    if cost > u64::MAX as u128 || value > u64::MAX as u128 {
        return false;
    }
    let c = cost as u64;
    let v = value as u64;
    proof {
        lemma_wrap_i64(c);
        lemma_wrap_i64(v);
    }
    let diff: i128 = (v as i64) as i128 - (c as i64) as i128;
    i64::MIN as i128 <= diff && diff <= i64::MAX as i128
}

/// Whether `portfolio_stats_at` can run on `investments` at `now` without
/// leaving the range of its integer types (see `stats_in_range`).
pub fn stats_fit(investments: &Vec<Investment>, now: UtcInstant) -> (r: bool)
    requires
        crate::investment::all_wf(investments@),
        now.wf(),
    ensures
        r == stats_in_range(investments@, now),
{
    let ghost invs = investments@;
    let n = investments.len();
    let mut cost: u128 = 0;
    let mut value: u128 = 0;
    let mut pl: i128 = 0;
    let mut days: i128 = 0;
    let mut i: usize = 0;
    assert(invs.take(0) =~= Seq::<Investment>::empty());
    while i < n
        invariant
            invs == investments@,
            n == invs.len(),
            i <= n,
            crate::investment::all_wf(invs),
            now.wf(),
            forall|k: int| 0 <= k < i ==> metrics_in_range(#[trigger] invs[k]),
            cost == sum_cost(invs.take(i as int)),
            value == sum_value(invs.take(i as int)),
            cost <= u64::MAX,
            value <= u64::MAX,
            pl == sum_profit_loss(invs.take(i as int)),
            days == sum_days(invs.take(i as int), now),
            forall|k: int| 0 <= k <= i ==> i64::MIN <= #[trigger] sum_profit_loss(invs.take(k)) <= i64::MAX,
            forall|k: int| 0 <= k <= i ==> i64::MIN <= #[trigger] sum_days(invs.take(k), now) <= i64::MAX,
        decreases n - i,
    {
        proof {
            lemma_take_step(invs, i as int);
        }
        let inv = &investments[i];
        if !metrics_fit(inv) {
            return false;
        }
        let m = metrics_at(inv, now);
        cost = cost + m.total_cost as u128;
        value = value + m.current_value as u128;
        if cost > u64::MAX as u128 || value > u64::MAX as u128 {
            proof {
                lemma_sums_monotone(invs, i + 1);
            }
            return false;
        }
        pl = pl + m.profit_loss as i128;
        days = days + m.days_held as i128;
        if pl < i64::MIN as i128 || pl > i64::MAX as i128 || days < i64::MIN as i128 || days > i64::MAX as i128 {
            proof {
                assert(pl == sum_profit_loss(invs.take(i + 1)));
                assert(days == sum_days(invs.take(i + 1), now));
            }
            return false;
        }
        i = i + 1;
    }
    assert(invs.take(n as int) =~= invs);
    true
}

/// The totals agree: the portfolio's profit/loss is its value less what was
/// invested, when no cost or value exceeds `i64::MAX`.
pub proof fn law_total_profit_is_value_minus_cost(invs: Seq<Investment>)
    requires
        forall|i: int| 0 <= i < invs.len() ==> {
            &&& total_cost_spec(#[trigger] invs[i]) <= i64::MAX
            &&& current_value_spec(invs[i]) <= i64::MAX
        },
    ensures
        sum_profit_loss(invs) == sum_value(invs) - sum_cost(invs),
    decreases invs.len(),
{
    if invs.len() > 0 {
        let last = invs.last();
        assert(last == invs[invs.len() - 1]);
        assert forall|i: int| 0 <= i < invs.drop_last().len() implies {
            &&& total_cost_spec(#[trigger] invs.drop_last()[i]) <= i64::MAX
            &&& current_value_spec(invs.drop_last()[i]) <= i64::MAX
        } by {
            assert(invs.drop_last()[i] == invs[i]);
        }
        law_total_profit_is_value_minus_cost(invs.drop_last());
    }
}

/// A sold investment is valued at its sale price, whatever price the
/// exchange reports later.
pub proof fn law_sold_value_ignores_live_price(inv: Investment, p: Option<u64>)
    requires
        inv.status == InvestmentStatus::Sold,
    ensures
        current_value_spec(Investment { current_price: p, ..inv }) == current_value_spec(inv),
{
}

/// The metrics of a sold investment with a sale date depend on neither the
/// live price nor the current time: every metric (cost, value, profit/loss,
/// days held), and whether they are in range, is the same whatever the
/// exchange reports and whenever they are computed.
pub proof fn law_sold_metrics_ignore_live_price(
    inv: Investment,
    p: Option<u64>,
    m: InvestmentMetrics,
    now1: UtcInstant,
    now2: UtcInstant,
)
    requires
        inv.status == InvestmentStatus::Sold,
        inv.sold_date is Some,
    ensures
        metrics_in_range(Investment { current_price: p, ..inv }) == metrics_in_range(inv),
        metrics_match(m, Investment { current_price: p, ..inv }, now2) == metrics_match(m, inv, now1),
{
}

/// The totals of a list of per-investment metrics: cost, value, profit/loss
/// and days held.
pub open spec fn metrics_totals(ms: Seq<InvestmentMetrics>) -> (int, int, int, int)
    decreases ms.len(),
{
    if ms.len() == 0 {
        (0, 0, 0, 0)
    } else {
        let t = metrics_totals(ms.drop_last());
        let m = ms.last();
        (t.0 + m.total_cost, t.1 + m.current_value, t.2 + m.profit_loss, t.3 + m.days_held)
    }
}

proof fn lemma_totals(invs: Seq<Investment>, ms: Seq<InvestmentMetrics>, now: UtcInstant)
    requires
        ms.len() == invs.len(),
        forall|i: int| 0 <= i < invs.len() ==> metrics_match(#[trigger] ms[i], invs[i], now),
    ensures
        metrics_totals(ms) == (sum_cost(invs), sum_value(invs), sum_profit_loss(invs), sum_days(invs, now)),
    decreases invs.len(),
{
    if invs.len() > 0 {
        let n = invs.len() - 1;
        assert(metrics_match(ms[n], invs[n], now));
        assert forall|i: int| 0 <= i < invs.drop_last().len() implies metrics_match(
            #[trigger] ms.drop_last()[i],
            invs.drop_last()[i],
            now,
        ) by {
            assert(metrics_match(ms[i], invs[i], now));
        }
        lemma_totals(invs.drop_last(), ms.drop_last(), now);
    }
}

/// The portfolio statistics at `now` add up the single-investment metrics at
/// the same `now` of every investment, active and sold alike: the total
/// invested is the sum of the costs, the current value the sum of the
/// values, the profit/loss the sum of the profits/losses and the holding
/// days the sum of the days held; the count is the number of investments.
pub proof fn law_stats_add_up_metrics(
    s: PortfolioStats,
    invs: Seq<Investment>,
    ms: Seq<InvestmentMetrics>,
    now: UtcInstant,
)
    requires
        stats_match(s, invs, now),
        ms.len() == invs.len(),
        forall|i: int| 0 <= i < invs.len() ==> metrics_match(#[trigger] ms[i], invs[i], now),
    ensures
        s.total_invested == metrics_totals(ms).0,
        s.current_value == metrics_totals(ms).1,
        s.total_profit_loss == metrics_totals(ms).2,
        s.total_holding_days == metrics_totals(ms).3,
        s.count == ms.len(),
{
    lemma_totals(invs, ms, now);
}

/// Whole days are counted toward zero: between two instants `e` nanoseconds
/// apart, the days are the number of complete days in `e`, negative when the
/// end comes first.
pub proof fn law_days_truncate_toward_zero(start: UtcInstant, end: UtcInstant)
    ensures
        end.total_nanos() >= start.total_nanos() ==> {
            &&& days_between(start, end) >= 0
            &&& days_between(start, end) * 86_400_000_000_000 <= end.total_nanos() - start.total_nanos()
            &&& end.total_nanos() - start.total_nanos() < (days_between(start, end) + 1) * 86_400_000_000_000
        },
        end.total_nanos() < start.total_nanos() ==> {
            &&& days_between(start, end) <= 0
            &&& -days_between(start, end) * 86_400_000_000_000 <= start.total_nanos() - end.total_nanos()
            &&& start.total_nanos() - end.total_nanos() < (-days_between(start, end) + 1) * 86_400_000_000_000
        },
{
}

/// What the metrics of one investment mean: the cost is the purchase price
/// times the quantity; the value is the quantity times the sale price of a
/// sold item, or the latest price of an active one (the purchase price when
/// that is unknown); the profit/loss is value less cost (where both fit in
/// `i64`); the days held run from the purchase to the sale, or to `now`.
pub proof fn law_metrics_meaning(inv: Investment, m: InvestmentMetrics, now: UtcInstant)
    requires
        metrics_match(m, inv, now),
    ensures
        m.total_cost == inv.purchase_price * inv.quantity,
        inv.status == InvestmentStatus::Sold ==> m.current_value == inv.quantity * (match inv.sold_price {
            Some(p) => p,
            None => inv.purchase_price,
        }),
        inv.status == InvestmentStatus::Active ==> m.current_value == inv.quantity * (
        match inv.current_price {
            Some(p) => p,
            None => inv.purchase_price,
        }),
        m.total_cost <= i64::MAX && m.current_value <= i64::MAX ==> m.profit_loss == m.current_value
            - m.total_cost,
        m.days_held == days_between(
            inv.purchase_date,
            match inv.sold_date {
                Some(d) => d,
                None => now,
            },
        ),
{
    assert(inv.quantity * price_now(inv) == price_now(inv) * inv.quantity) by (nonlinear_arith);
}

/// The best investment of the statistics has the highest profit/loss of all
/// (the first such one), the worst the lowest (the first such one), as the
/// single-investment metrics at the same `now` give them; there is one of
/// each exactly when there is any investment.
pub proof fn law_best_and_worst(
    s: PortfolioStats,
    invs: Seq<Investment>,
    ms: Seq<InvestmentMetrics>,
    now: UtcInstant,
)
    requires
        stats_match(s, invs, now),
        ms.len() == invs.len(),
        forall|i: int| 0 <= i < invs.len() ==> metrics_match(#[trigger] ms[i], invs[i], now),
    ensures
        (s.best_investment is Some) == (invs.len() > 0),
        (s.worst_investment is Some) == (invs.len() > 0),
        s.best_investment matches Some(b) ==> {
            &&& forall|j: int| 0 <= j < ms.len() ==> (#[trigger] ms[j]).profit_loss <= b.1
            &&& exists|i: int|
                0 <= i < ms.len() && (#[trigger] ms[i]).profit_loss == b.1 && b.0@ == invs[i].item_name@
                    && forall|j: int| 0 <= j < i ==> (#[trigger] ms[j]).profit_loss < b.1
        },
        s.worst_investment matches Some(w) ==> {
            &&& forall|j: int| 0 <= j < ms.len() ==> (#[trigger] ms[j]).profit_loss >= w.1
            &&& exists|i: int|
                0 <= i < ms.len() && (#[trigger] ms[i]).profit_loss == w.1 && w.0@ == invs[i].item_name@
                    && forall|j: int| 0 <= j < i ==> (#[trigger] ms[j]).profit_loss > w.1
        },
{
    if let Some(b) = s.best_investment {
        let i = choose|i: int|
            is_first_best(invs, i) && b.0@ == invs[i].item_name@ && b.1 == profit_loss_spec(invs[i]);
        assert(metrics_match(ms[i], invs[i], now));
        assert forall|j: int| 0 <= j < ms.len() implies (#[trigger] ms[j]).profit_loss <= b.1 by {
            assert(metrics_match(ms[j], invs[j], now));
            assert(profit_loss_spec(invs[j]) <= profit_loss_spec(invs[i]));
        }
        assert forall|j: int| 0 <= j < i implies (#[trigger] ms[j]).profit_loss < b.1 by {
            assert(metrics_match(ms[j], invs[j], now));
            assert(profit_loss_spec(invs[j]) < profit_loss_spec(invs[i]));
        }
    }
    if let Some(w) = s.worst_investment {
        let i = choose|i: int|
            is_first_worst(invs, i) && w.0@ == invs[i].item_name@ && w.1 == profit_loss_spec(invs[i]);
        assert(metrics_match(ms[i], invs[i], now));
        assert forall|j: int| 0 <= j < ms.len() implies (#[trigger] ms[j]).profit_loss >= w.1 by {
            assert(metrics_match(ms[j], invs[j], now));
            assert(profit_loss_spec(invs[j]) >= profit_loss_spec(invs[i]));
        }
        assert forall|j: int| 0 <= j < i implies (#[trigger] ms[j]).profit_loss > w.1 by {
            assert(metrics_match(ms[j], invs[j], now));
            assert(profit_loss_spec(invs[j]) > profit_loss_spec(invs[i]));
        }
    }
}

} // verus!
