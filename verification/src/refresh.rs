//! Price refresh of the active investments: which item IDs to ask the
//! exchange for, and how the prices that come back update the portfolio.
use vstd::prelude::*;

use crate::clock::UtcInstant;
use crate::investment::{Game, Investment, InvestmentStatus};
use std::collections::HashMap;

verus! {

/// The counts a refresh reports.
#[derive(Debug, Clone, Copy, PartialEq, Eq, Structural)]
pub struct RefreshSummary {
    pub updated: usize,
    /// Active investments with no item ID set, which can never be priced.
    pub missing_item_id: usize,
    /// Active investments whose item ID got no price back.
    pub unresolved: usize,
}

/// The item IDs to ask the exchange for, per game, and how many active
/// investments have no item ID.
#[derive(Debug, Clone)]
pub struct RefreshPlan {
    pub rs3_ids: Vec<u32>,
    pub osrs_ids: Vec<u32>,
    pub missing_item_id: usize,
}

/// The item IDs of the active investments of `game`, in portfolio order.
pub open spec fn ids_for(invs: Seq<Investment>, game: Game) -> Seq<u32>
    decreases invs.len(),
{
    if invs.len() == 0 {
        Seq::empty()
    } else {
        let rest = ids_for(invs.drop_last(), game);
        let inv = invs.last();
        if inv.status == InvestmentStatus::Active && inv.game == game && inv.item_id is Some {
            rest.push(inv.item_id.unwrap())
        } else {
            rest
        }
    }
}

/// How many active investments have no item ID.
pub open spec fn count_missing(invs: Seq<Investment>) -> nat
    decreases invs.len(),
{
    if invs.len() == 0 {
        0
    } else {
        count_missing(invs.drop_last()) + if invs.last().status == InvestmentStatus::Active
            && invs.last().item_id is None {
            1nat
        } else {
            0nat
        }
    }
}

/// How many investments are active.
pub open spec fn count_active(invs: Seq<Investment>) -> nat
    decreases invs.len(),
{
    if invs.len() == 0 {
        0
    } else {
        count_active(invs.drop_last()) + if invs.last().status == InvestmentStatus::Active {
            1nat
        } else {
            0nat
        }
    }
}

/// The prices fetched for a refresh, by item ID: those of RS3 items, then
/// those of OSRS items.
pub type FetchedPrices = (Map<u32, u64>, Map<u32, u64>);

/// The price fetched for an item of a game, if any.
pub open spec fn quoted_price(prices: FetchedPrices, game: Game, item_id: u32) -> Option<u64> {
    let m = match game {
        Game::Rs3 => prices.0,
        Game::Osrs => prices.1,
    };
    if m.contains_key(item_id) { Some(m[item_id]) } else { None }
}

/// The price a refresh applies to `inv`, if any: active, with an item ID,
/// and quoted.
pub open spec fn refresh_price(inv: Investment, prices: FetchedPrices) -> Option<u64> {
    if inv.status == InvestmentStatus::Active && inv.item_id is Some {
        quoted_price(prices, inv.game, inv.item_id.unwrap())
    } else {
        None
    }
}

/// `inv` after a refresh: a quoted price becomes the current one, the former
/// current price becomes the previous one, and the time is recorded.
pub open spec fn refreshed(inv: Investment, prices: FetchedPrices, now: UtcInstant) -> Investment {
    match refresh_price(inv, prices) {
        Some(p) => Investment {
            previous_price: inv.current_price,
            current_price: Some(p),
            last_updated: Some(now),
            ..inv
        },
        None => inv,
    }
}

/// How many investments a refresh updates.
pub open spec fn count_updated(invs: Seq<Investment>, prices: FetchedPrices) -> nat
    decreases invs.len(),
{
    if invs.len() == 0 {
        0
    } else {
        count_updated(invs.drop_last(), prices) + if refresh_price(invs.last(), prices) is Some {
            1nat
        } else {
            0nat
        }
    }
}

/// How many active investments with an item ID get no quote.
pub open spec fn count_unresolved(invs: Seq<Investment>, prices: FetchedPrices) -> nat
    decreases invs.len(),
{
    if invs.len() == 0 {
        0
    } else {
        count_unresolved(invs.drop_last(), prices) + if invs.last().status
            == InvestmentStatus::Active && invs.last().item_id is Some && refresh_price(
            invs.last(),
            prices,
        ) is None {
            1nat
        } else {
            0nat
        }
    }
}

proof fn lemma_take_last<T>(s: Seq<T>, k: int)
    requires
        0 <= k < s.len(),
    ensures
        s.take(k + 1).drop_last() == s.take(k),
        s.take(k + 1).last() == s[k],
{
    assert(s.take(k + 1).drop_last() =~= s.take(k));
}

proof fn lemma_count_missing_bound(invs: Seq<Investment>)
    ensures
        count_missing(invs) <= invs.len(),
    decreases invs.len(),
{
    if invs.len() > 0 {
        lemma_count_missing_bound(invs.drop_last());
    }
}

/// Which item IDs to fetch for each game, and how many active investments
/// cannot be priced for want of an item ID.
pub fn plan_refresh(investments: &Vec<Investment>) -> (p: RefreshPlan)
    ensures
        p.rs3_ids@ == ids_for(investments@, Game::Rs3),
        p.osrs_ids@ == ids_for(investments@, Game::Osrs),
        p.missing_item_id == count_missing(investments@),
{
    let ghost invs = investments@;
    let n = investments.len();
    let mut rs3_ids: Vec<u32> = Vec::new();
    let mut osrs_ids: Vec<u32> = Vec::new();
    let mut missing: usize = 0;
    let mut i: usize = 0;
    while i < n
        invariant
            invs == investments@,
            n == invs.len(),
            i <= n,
            rs3_ids@ == ids_for(invs.take(i as int), Game::Rs3),
            osrs_ids@ == ids_for(invs.take(i as int), Game::Osrs),
            missing == count_missing(invs.take(i as int)),
        decreases n - i,
    {
        proof {
            lemma_take_last(invs, i as int);
            lemma_count_missing_bound(invs.take(i as int));
        }
        let inv = &investments[i];
        if inv.status == InvestmentStatus::Active {
            match inv.item_id {
                Some(id) => match inv.game {
                    Game::Rs3 => rs3_ids.push(id),
                    Game::Osrs => osrs_ids.push(id),
                },
                None => {
                    missing = missing + 1;
                },
            }
        }
        i = i + 1;
    }
    assert(invs.take(n as int) =~= invs);
    RefreshPlan { rs3_ids, osrs_ids, missing_item_id: missing }
}

impl RefreshPlan {
    /// No active investment has an item ID, so there is nothing to fetch.
    pub fn is_empty(&self) -> (r: bool)
        ensures
            r == (self.rs3_ids@.len() == 0 && self.osrs_ids@.len() == 0),
    {
        self.rs3_ids.len() == 0 && self.osrs_ids.len() == 0
    }

    /// The summary reported when there is nothing to fetch.
    pub fn nothing_to_fetch(&self) -> (r: RefreshSummary)
        ensures
            r == (RefreshSummary { updated: 0, missing_item_id: self.missing_item_id, unresolved: 0 }),
    {
        RefreshSummary { updated: 0, missing_item_id: self.missing_item_id, unresolved: 0 }
    }
}

/// Applies fetched prices to every active investment that has an item ID:
/// the quoted price becomes the current one, the former current price the
/// previous one, and `now` the time of the update. Returns the counts.
pub fn apply_prices(
    investments: &mut Vec<Investment>,
    rs3_prices: &HashMap<u32, u64>,
    osrs_prices: &HashMap<u32, u64>,
    now: UtcInstant,
    missing_item_id: usize,
) -> (s: RefreshSummary)
    ensures
        final(investments)@.len() == old(investments)@.len(),
        forall|i: int|
            0 <= i < old(investments)@.len() ==> #[trigger] final(investments)@[i] == refreshed(
                old(investments)@[i],
                (rs3_prices@, osrs_prices@),
                now,
            ),
        s.updated == count_updated(old(investments)@, (rs3_prices@, osrs_prices@)),
        s.unresolved == count_unresolved(old(investments)@, (rs3_prices@, osrs_prices@)),
        s.missing_item_id == missing_item_id,
{
    broadcast use vstd::std_specs::hash::group_hash_axioms;
    let ghost orig = investments@;
    let n = investments.len();
    let mut updated: usize = 0;
    let mut unresolved: usize = 0;
    let mut i: usize = 0;
    while i < n
        invariant
            n == orig.len(),
            investments@.len() == n,
            i <= n,
            forall|k: int| 0 <= k < i ==> #[trigger] investments@[k] == refreshed(orig[k], (rs3_prices@, osrs_prices@), now),
            forall|k: int| i <= k < n ==> #[trigger] investments@[k] == orig[k],
            updated == count_updated(orig.take(i as int), (rs3_prices@, osrs_prices@)),
            unresolved == count_unresolved(orig.take(i as int), (rs3_prices@, osrs_prices@)),
            updated + unresolved <= i,
        decreases n - i,
    {
        proof {
            lemma_take_last(orig, i as int);
        }
        if investments[i].status == InvestmentStatus::Active {
            match investments[i].item_id {
                Some(id) => {
                    let game = investments[i].game;
                    let table = match game {
                        Game::Rs3 => rs3_prices,
                        Game::Osrs => osrs_prices,
                    };
                    match table.get(&id) {
                        Some(p) => {
                            let price = *p;
                            let prev = investments[i].current_price;
                            investments[i].previous_price = prev;
                            investments[i].current_price = Some(price);
                            investments[i].last_updated = Some(now);
                            updated = updated + 1;
                        },
                        None => {
                            unresolved = unresolved + 1;
                        },
                    }
                },
                None => {},
            }
        }
        i = i + 1;
    }
    assert(orig.take(n as int) =~= orig);
    RefreshSummary { updated, missing_item_id, unresolved }
}

proof fn lemma_counts_partition(invs: Seq<Investment>, prices: FetchedPrices)
    ensures
        count_updated(invs, prices) + count_unresolved(invs, prices) + count_missing(invs)
            == count_active(invs),
    decreases invs.len(),
{
    if invs.len() > 0 {
        lemma_counts_partition(invs.drop_last(), prices);
    }
}

/// Every active investment is counted exactly once by a refresh: it is
/// updated, unresolved, or missing its item ID.
pub proof fn law_refresh_counts_every_active(invs: Seq<Investment>, prices: FetchedPrices)
    ensures
        count_updated(invs, prices) + count_unresolved(invs, prices) + count_missing(invs)
            == count_active(invs),
{
    lemma_counts_partition(invs, prices);
}

/// A refresh leaves sold investments, and investments without an item ID,
/// exactly as they were.
pub proof fn law_refresh_keeps_unpriceable(inv: Investment, prices: FetchedPrices, now: UtcInstant)
    requires
        inv.status == InvestmentStatus::Sold || inv.item_id is None,
    ensures
        refreshed(inv, prices, now) == inv,
{
}

/// After a refresh that priced an investment, its previous price is the
/// current price it had before.
pub proof fn law_refresh_shifts_price(inv: Investment, prices: FetchedPrices, now: UtcInstant)
    requires
        refresh_price(inv, prices) is Some,
    ensures
        refreshed(inv, prices, now).previous_price == inv.current_price,
        refreshed(inv, prices, now).current_price == refresh_price(inv, prices),
        refreshed(inv, prices, now).last_updated == Some(now),
{
}

/// Every ID the plan fetches belongs to an active investment of that game.
pub proof fn law_plan_ids_are_active(invs: Seq<Investment>, game: Game, k: int)
    requires
        0 <= k < ids_for(invs, game).len(),
    ensures
        exists|i: int|
            0 <= i < invs.len() && (#[trigger] invs[i]).status == InvestmentStatus::Active
                && invs[i].game == game && invs[i].item_id == Some(ids_for(invs, game)[k]),
    decreases invs.len(),
{
    let rest = ids_for(invs.drop_last(), game);
    if k < rest.len() {
        law_plan_ids_are_active(invs.drop_last(), game, k);
        let i = choose|i: int|
            0 <= i < invs.drop_last().len() && (#[trigger] invs.drop_last()[i]).status
                == InvestmentStatus::Active && invs.drop_last()[i].game == game
                && invs.drop_last()[i].item_id == Some(rest[k]);
        assert(invs[i] == invs.drop_last()[i]);
    } else {
        assert(invs[invs.len() - 1] == invs.last());
    }
}

/// Every active investment with an item ID has its ID asked for, with its
/// own game.
pub proof fn law_plan_asks_for_every_active(invs: Seq<Investment>, i: int)
    requires
        0 <= i < invs.len(),
        invs[i].status == InvestmentStatus::Active,
        invs[i].item_id is Some,
    ensures
        ids_for(invs, invs[i].game).contains(invs[i].item_id.unwrap()),
    decreases invs.len(),
{
    let g = invs[i].game;
    let id = invs[i].item_id.unwrap();
    if i < invs.len() - 1 {
        assert(invs.drop_last()[i] == invs[i]);
        law_plan_asks_for_every_active(invs.drop_last(), i);
        let rest = ids_for(invs.drop_last(), g);
        let j = choose|j: int| 0 <= j < rest.len() && rest[j] == id;
        let all = ids_for(invs, g);
        assert(all[j] == id);
    } else {
        assert(invs.last() == invs[i]);
        let all = ids_for(invs, g);
        assert(all[all.len() - 1] == id);
    }
}

/// A refresh prices an active investment with an item ID from the prices
/// fetched for its own game only: it takes the price fetched for its item ID
/// there, and is left alone when none was; the other game's prices play no
/// part.
pub proof fn law_refresh_uses_own_game_prices(
    inv: Investment,
    rs3: Map<u32, u64>,
    osrs: Map<u32, u64>,
    other: Map<u32, u64>,
    now: UtcInstant,
)
    requires
        inv.status == InvestmentStatus::Active,
        inv.item_id is Some,
    ensures
        inv.game == Game::Rs3 ==> refreshed(inv, (rs3, osrs), now) == refreshed(inv, (rs3, other), now),
        inv.game == Game::Osrs ==> refreshed(inv, (rs3, osrs), now) == refreshed(inv, (other, osrs), now),
        ({
            let m = if inv.game == Game::Rs3 { rs3 } else { osrs };
            let id = inv.item_id.unwrap();
            &&& m.contains_key(id) ==> refreshed(inv, (rs3, osrs), now).current_price == Some(m[id])
            &&& !m.contains_key(id) ==> refreshed(inv, (rs3, osrs), now) == inv
        }),
{
}

} // verus!
