use rsgewatch::calculations::{days_from_to, metrics_at, metrics_fit, portfolio_stats_at, stats_fit};
use rsgewatch::clock::UtcInstant;
use rsgewatch::investment::{Game, Investment, InvestmentStatus};

const DAY: i64 = 86_400;

fn at(secs: i64) -> UtcInstant {
    UtcInstant { secs, nanos: 0 }
}

fn active(name: &str, price: u64, qty: u64, current: Option<u64>, bought: i64) -> Investment {
    Investment {
        id: format!("id-{name}"),
        item_name: name.to_string(),
        item_id: Some(1),
        game: Game::Rs3,
        purchase_date: at(bought),
        purchase_price: price,
        quantity: qty,
        notes: None,
        status: InvestmentStatus::Active,
        current_price: current,
        previous_price: None,
        last_updated: None,
        sold_price: None,
        sold_date: None,
    }
}

#[test]
fn metrics_of_active_investment() {
    let inv = active("Bond", 100, 10, Some(150), 0);
    let m = metrics_at(&inv, at(3 * DAY + 5));
    assert_eq!(m.total_cost, 1000);
    assert_eq!(m.current_value, 1500);
    assert_eq!(m.profit_loss, 500);
    assert_eq!(m.days_held, 3);
}

#[test]
fn metrics_without_price_use_purchase_price() {
    let inv = active("Bond", 250, 4, None, 0);
    let m = metrics_at(&inv, at(0));
    assert_eq!(m.current_value, 1000);
    assert_eq!(m.profit_loss, 0);
    assert_eq!(m.days_held, 0);
}

#[test]
fn sold_investment_uses_sale_price_and_date() {
    let mut inv = active("Bond", 100, 10, Some(9999), 0);
    inv.status = InvestmentStatus::Sold;
    inv.sold_price = Some(80);
    inv.sold_date = Some(at(2 * DAY));
    let m = metrics_at(&inv, at(100 * DAY));
    assert_eq!(m.current_value, 800);
    assert_eq!(m.profit_loss, -200);
    assert_eq!(m.days_held, 2);
}

#[test]
fn days_truncate_toward_zero() {
    assert_eq!(days_from_to(at(0), at(DAY - 1)), 0);
    assert_eq!(days_from_to(at(0), at(DAY)), 1);
    assert_eq!(days_from_to(at(DAY), at(0)), -1);
    assert_eq!(days_from_to(at(DAY + 1), at(0)), -1);
    assert_eq!(days_from_to(at(0), at(-DAY + 1)), 0);
    assert_eq!(
        days_from_to(UtcInstant { secs: 0, nanos: 1 }, UtcInstant { secs: DAY, nanos: 0 }),
        0
    );
}

#[test]
fn total_profit_is_value_minus_cost() {
    let invs = vec![
        active("A", 10, 3, Some(20), 0),
        active("B", 50, 2, Some(40), 0),
        active("C", 7, 1, None, 0),
    ];
    let s = portfolio_stats_at(&invs, at(10 * DAY));
    assert_eq!(s.total_invested, 30 + 100 + 7);
    assert_eq!(s.current_value, 60 + 80 + 7);
    assert_eq!(s.total_profit_loss, s.current_value as i64 - s.total_invested as i64);
    assert_eq!(s.total_holding_days, 30);
    assert_eq!(s.count, 3);
    assert_eq!(s.best_investment, Some(("A".to_string(), 30)));
    assert_eq!(s.worst_investment, Some(("B".to_string(), -20)));
}

#[test]
fn best_and_worst_keep_the_first_of_ties() {
    let invs = vec![
        active("first", 10, 1, Some(15), 0),
        active("second", 10, 1, Some(15), 0),
    ];
    let s = portfolio_stats_at(&invs, at(0));
    assert_eq!(s.best_investment, Some(("first".to_string(), 5)));
    assert_eq!(s.worst_investment, Some(("first".to_string(), 5)));
}

#[test]
fn empty_portfolio_stats() {
    let s = portfolio_stats_at(&Vec::new(), at(0));
    assert_eq!(s.total_invested, 0);
    assert_eq!(s.current_value, 0);
    assert_eq!(s.total_profit_loss, 0);
    assert_eq!(s.best_investment, None);
    assert_eq!(s.worst_investment, None);
    assert_eq!(s.total_holding_days, 0);
    assert_eq!(s.count, 0);
}

#[test]
fn range_checks() {
    assert!(metrics_fit(&active("A", 10, 3, Some(20), 0)));
    assert!(!metrics_fit(&active("A", u64::MAX, 2, None, 0)));
    assert!(!metrics_fit(&active("A", 1, 2, Some(u64::MAX), 0)));
    let invs = vec![active("A", u64::MAX / 2, 1, None, 0), active("B", u64::MAX / 2, 1, None, 0)];
    assert!(stats_fit(&invs, at(0)));
    let invs = vec![active("A", u64::MAX / 2, 1, None, 0), active("B", u64::MAX / 2 + 2, 1, None, 0)];
    assert!(!stats_fit(&invs, at(0)));
}
