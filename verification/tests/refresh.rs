use rsgewatch::clock::UtcInstant;
use rsgewatch::investment::{Game, Investment, InvestmentStatus};
use std::collections::HashMap;

use rsgewatch::refresh::{apply_prices, plan_refresh, RefreshSummary};

fn inv(name: &str, game: Game, item_id: Option<u32>, status: InvestmentStatus, current: Option<u64>) -> Investment {
    Investment {
        id: name.to_string(),
        item_name: name.to_string(),
        item_id,
        game,
        purchase_date: UtcInstant { secs: 0, nanos: 0 },
        purchase_price: 10,
        quantity: 1,
        notes: None,
        status,
        current_price: current,
        previous_price: None,
        last_updated: None,
        sold_price: None,
        sold_date: None,
    }
}

fn sample() -> Vec<Investment> {
    vec![
        inv("a", Game::Rs3, Some(100), InvestmentStatus::Active, Some(5)),
        inv("b", Game::Osrs, Some(200), InvestmentStatus::Active, None),
        inv("c", Game::Rs3, None, InvestmentStatus::Active, None),
        inv("d", Game::Rs3, Some(300), InvestmentStatus::Sold, None),
        inv("e", Game::Rs3, Some(400), InvestmentStatus::Active, None),
        inv("f", Game::Rs3, Some(100), InvestmentStatus::Active, None),
    ]
}

#[test]
fn plan_lists_active_ids_per_game() {
    let p = plan_refresh(&sample());
    assert_eq!(p.rs3_ids, vec![100, 400, 100]);
    assert_eq!(p.osrs_ids, vec![200]);
    assert_eq!(p.missing_item_id, 1);
    assert!(!p.is_empty());
}

#[test]
fn empty_plan_reports_missing_ids() {
    let invs = vec![inv("c", Game::Rs3, None, InvestmentStatus::Active, None)];
    let p = plan_refresh(&invs);
    assert!(p.is_empty());
    assert_eq!(p.nothing_to_fetch(), RefreshSummary { updated: 0, missing_item_id: 1, unresolved: 0 });
}

#[test]
fn prices_are_looked_up_per_game() {
    let rs3 = HashMap::from([(100u32, 3u64)]);
    let osrs = HashMap::from([(100u32, 2u64)]);
    let mut invs = vec![
        inv("r", Game::Rs3, Some(100), InvestmentStatus::Active, None),
        inv("o", Game::Osrs, Some(100), InvestmentStatus::Active, None),
        inv("x", Game::Osrs, Some(7), InvestmentStatus::Active, None),
    ];
    let s = apply_prices(&mut invs, &rs3, &osrs, UtcInstant { secs: 1, nanos: 0 }, 0);
    assert_eq!(invs[0].current_price, Some(3));
    assert_eq!(invs[1].current_price, Some(2));
    assert_eq!(invs[2].current_price, None);
    assert_eq!(s, RefreshSummary { updated: 2, missing_item_id: 0, unresolved: 1 });
}

#[test]
fn apply_shifts_prices_and_counts() {
    let mut invs = sample();
    let before = invs.clone();
    let rs3 = HashMap::from([(100u32, 7u64), (300, 11)]);
    let osrs = HashMap::from([(200u32, 9u64)]);
    let now = UtcInstant { secs: 77, nanos: 5 };
    let s = apply_prices(&mut invs, &rs3, &osrs, now, 1);
    assert_eq!(s, RefreshSummary { updated: 3, missing_item_id: 1, unresolved: 1 });
    assert_eq!(invs[0].current_price, Some(7));
    assert_eq!(invs[0].previous_price, Some(5));
    assert_eq!(invs[0].last_updated, Some(now));
    assert_eq!(invs[1].current_price, Some(9));
    assert_eq!(invs[1].previous_price, None);
    // no item ID, sold, or not quoted: untouched
    for k in [2usize, 3, 4] {
        assert_eq!(invs[k].current_price, before[k].current_price);
        assert_eq!(invs[k].last_updated, None);
    }
    assert_eq!(invs[5].current_price, Some(7));
    assert_eq!(invs.len(), before.len());
}
