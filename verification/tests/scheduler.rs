use rsgewatch::calculations::{metrics_at, InvestmentMetrics};
use rsgewatch::clock::{LocalDateTime, TimeOfDay, UtcInstant, Weekday};
use rsgewatch::investment::{Game, Investment, InvestmentStatus};
use rsgewatch::schedule::{EventKind, EventRule, Frequency, PercentThreshold, TimeSchedule};
use rsgewatch::scheduler::{
    dashboard_counts, due_for_refresh, event_candidates, event_hit, fire_due_schedules, fire_due_schedules_at,
    mark_rule_triggered,
    refresh_interval_fits, schedules_ready,
};

fn utc(secs: i64) -> UtcInstant {
    UtcInstant { secs, nanos: 0 }
}

fn inv(id: &str, status: InvestmentStatus, item_id: Option<u32>, updated: Option<i64>) -> Investment {
    Investment {
        id: id.to_string(),
        item_name: id.to_uppercase(),
        item_id,
        game: Game::Rs3,
        purchase_date: utc(0),
        purchase_price: 100,
        quantity: 10,
        notes: None,
        status,
        current_price: Some(120),
        previous_price: Some(100),
        last_updated: updated.map(utc),
        sold_price: None,
        sold_date: None,
    }
}

fn rule(id: &str, target: Option<&str>, enabled: bool) -> EventRule {
    EventRule {
        id: id.to_string(),
        name: id.to_string(),
        item_id: target.map(|t| t.to_string()),
        kind: EventKind::PriceAbove(1),
        enabled,
        last_triggered: None,
    }
}

#[test]
fn refresh_interval_checks() {
    assert!(refresh_interval_fits(15));
    assert!(refresh_interval_fits(153_722_867_280_912));
    assert!(!refresh_interval_fits(153_722_867_280_913));
    assert!(refresh_interval_fits(u64::MAX));
    assert!(due_for_refresh(None, utc(0), 15));
    assert!(!due_for_refresh(Some(utc(1000)), utc(1000 + 15 * 60 - 1), 15));
    assert!(due_for_refresh(Some(utc(1000)), utc(1000 + 15 * 60), 15));
    // u64::MAX minutes is -1 minute as i64: always due
    assert!(due_for_refresh(Some(utc(1000)), utc(1000), u64::MAX));
}

#[test]
fn due_schedules_fire_and_record_the_run() {
    let sched = |name: &str, enabled: bool, hour: u32| TimeSchedule {
        id: name.to_string(),
        name: name.to_string(),
        frequency: Frequency::Daily,
        time_of_day: TimeOfDay::from_hm(hour, 0).unwrap(),
        day_of_week: Weekday::Mon,
        enabled,
        last_run: None,
    };
    let mut schedules = vec![sched("a", true, 8), sched("b", false, 8), sched("c", true, 20), sched("d", true, 0)];
    assert!(schedules_ready(&schedules));
    let now = LocalDateTime { date: 739_000, weekday: Weekday::Tue, time: TimeOfDay::from_hm(9, 0).unwrap() };
    let fired = fire_due_schedules(&mut schedules, now);
    assert_eq!(fired, vec![0, 3]);
    assert!(schedules[0].last_run.is_some());
    assert!(schedules[1].last_run.is_none());
    assert!(schedules[2].last_run.is_none());
    assert!(schedules[3].last_run.is_some());
}

#[test]
fn schedules_with_far_last_runs_are_not_ready() {
    let s = TimeSchedule {
        id: "x".to_string(),
        name: "x".to_string(),
        frequency: Frequency::Daily,
        time_of_day: TimeOfDay::midnight(),
        day_of_week: Weekday::Mon,
        enabled: true,
        last_run: Some(utc(i64::MAX)),
    };
    assert!(!schedules_ready(&vec![s.clone()]));
    let mut edge = s.clone();
    edge.last_run = Some(utc(8_210_266_790_399));
    assert!(schedules_ready(&vec![edge.clone()]));
    edge.last_run = Some(utc(8_210_266_790_400));
    assert!(!schedules_ready(&vec![edge.clone()]));
    edge.last_run = Some(utc(-8_334_601_228_800));
    assert!(schedules_ready(&vec![edge.clone()]));
    edge.last_run = Some(utc(-8_334_601_228_801));
    assert!(!schedules_ready(&vec![edge]));
}

#[test]
fn untargeted_rules_apply_to_active_investments_only() {
    let invs = vec![
        inv("a", InvestmentStatus::Active, Some(1), None),
        inv("b", InvestmentStatus::Sold, Some(2), None),
        inv("c", InvestmentStatus::Active, None, None),
    ];
    let rules = vec![rule("all", None, true), rule("off", None, false), rule("one", Some("b"), true)];
    assert_eq!(event_candidates(&rules, &invs), vec![(0, 0), (0, 2), (2, 1)]);
}

#[test]
fn alert_conditions() {
    let i = inv("a", InvestmentStatus::Active, Some(1), None);
    let m: InvestmentMetrics = metrics_at(&i, utc(0));
    assert_eq!(m.current_value, 1200);
    assert_eq!(event_hit(EventKind::PriceAbove(119), &i, &m, false), Some(120));
    assert_eq!(event_hit(EventKind::PriceAbove(120), &i, &m, false), None);
    assert_eq!(event_hit(EventKind::PriceBelow(121), &i, &m, false), Some(120));
    assert_eq!(event_hit(EventKind::ValueAbove(1000), &i, &m, false), Some(1200));
    assert_eq!(event_hit(EventKind::ValueBelow(1000), &i, &m, false), None);
    assert_eq!(event_hit(EventKind::ProfitAboveGp(199), &i, &m, false), Some(1200));
    assert_eq!(event_hit(EventKind::ProfitAboveGp(200), &i, &m, false), None);
    let p = PercentThreshold { bits: 10.0f64.to_bits() };
    assert_eq!(event_hit(EventKind::ProfitAbovePercent(p), &i, &m, true), Some(1200));
    assert_eq!(event_hit(EventKind::SignificantMove(p), &i, &m, true), Some(120));
    assert_eq!(event_hit(EventKind::SignificantMove(p), &i, &m, false), None);
    let mut no_prev = i.clone();
    no_prev.previous_price = Some(0);
    assert_eq!(event_hit(EventKind::SignificantMove(p), &no_prev, &m, true), None);
    let mut unpriced = i.clone();
    unpriced.current_price = None;
    assert_eq!(event_hit(EventKind::PriceBelow(u64::MAX), &unpriced, &m, true), None);
}

#[test]
fn dashboard_counts_active_missing_and_latest() {
    let invs = vec![
        inv("a", InvestmentStatus::Active, Some(1), Some(50)),
        inv("b", InvestmentStatus::Sold, Some(2), Some(500)),
        inv("c", InvestmentStatus::Active, None, Some(70)),
        inv("d", InvestmentStatus::Active, Some(3), None),
    ];
    let c = dashboard_counts(&invs);
    assert_eq!(c.active, 3);
    assert_eq!(c.missing_item_id, 1);
    assert_eq!(c.last_updated, Some(utc(70)));
    let c = dashboard_counts(&vec![inv("b", InvestmentStatus::Sold, Some(2), Some(500))]);
    assert_eq!(c.active, 0);
    assert_eq!(c.last_updated, None);
}

fn daily(name: &str, hour: u32, last_run: Option<UtcInstant>) -> TimeSchedule {
    TimeSchedule {
        id: name.to_string(),
        name: name.to_string(),
        frequency: Frequency::Daily,
        time_of_day: TimeOfDay::from_hm(hour, 0).unwrap(),
        day_of_week: Weekday::Mon,
        enabled: true,
        last_run,
    }
}

#[test]
fn fired_schedules_record_the_firing_instant() {
    let clock = utc(1_750_000_000);
    let mut schedules = vec![daily("a", 8, None), daily("b", 20, None)];
    let now = LocalDateTime { date: 739_000, weekday: Weekday::Tue, time: TimeOfDay::from_hm(9, 0).unwrap() };
    assert_eq!(fire_due_schedules_at(&mut schedules, now, clock), vec![0]);
    assert_eq!(schedules[0].last_run, Some(clock));
    assert_eq!(schedules[1].last_run, None);
}

#[test]
fn hourly_schedule_fires_once_per_interval_across_ticks() {
    let mut schedules = vec![TimeSchedule {
        frequency: Frequency::EveryXHours(2),
        ..daily("h", 0, None)
    }];
    let now = LocalDateTime { date: 739_000, weekday: Weekday::Tue, time: TimeOfDay::from_hm(9, 0).unwrap() };
    assert_eq!(fire_due_schedules_at(&mut schedules, now, utc(10_000)), vec![0]);
    assert_eq!(fire_due_schedules_at(&mut schedules, now, utc(10_000 + 7_199)), Vec::<usize>::new());
    assert_eq!(fire_due_schedules_at(&mut schedules, now, utc(10_000 + 7_200)), vec![0]);
    assert_eq!(schedules[0].last_run, Some(utc(17_200)));
}

#[test]
fn daily_schedule_does_not_fire_twice_on_its_day() {
    // the run is recorded at the local date of the firing instant; a later
    // tick on that same local date finds it not due
    let clock = rsgewatch::clock::UtcInstant { secs: 1_750_000_000, nanos: 0 };
    let mut schedules = vec![daily("d", 0, None)];
    let day = |date: i32| LocalDateTime { date, weekday: Weekday::Tue, time: TimeOfDay::from_hm(23, 59).unwrap() };
    assert_eq!(fire_due_schedules_at(&mut schedules, day(739_000), clock), vec![0]);
    // the local date of `clock` is within a day of its UTC date (739_000 is far from it)
    let utc_date = 1_750_000_000i64.div_euclid(86_400) as i32 + 719_163;
    let mut fired_later = 0;
    for date in [utc_date - 1, utc_date, utc_date + 1] {
        let mut again = schedules.clone();
        fired_later += fire_due_schedules_at(&mut again, day(date), utc(1_750_000_100)).len();
    }
    // exactly one of the three candidate dates is the run's own local date
    assert_eq!(fired_later, 2);
}

#[test]
fn readiness_ignores_disabled_and_hourly_schedules() {
    let far = Some(utc(i64::MAX));
    let disabled = TimeSchedule { enabled: false, ..daily("x", 0, far) };
    let hourly = TimeSchedule { frequency: Frequency::EveryXHours(1), ..daily("y", 0, far) };
    assert!(schedules_ready(&vec![disabled.clone(), hourly.clone()]));
    assert!(!schedules_ready(&vec![daily("z", 0, far)]));
    let now = LocalDateTime { date: 739_000, weekday: Weekday::Tue, time: TimeOfDay::from_hm(9, 0).unwrap() };
    assert!(!disabled.is_due(now));
    assert!(!hourly.is_due_at(now, utc(0)));
}

#[test]
fn triggered_rules_record_the_instant() {
    let mut rules = vec![rule("a", None, true), rule("b", None, true)];
    mark_rule_triggered(&mut rules, 1, utc(99));
    assert_eq!(rules[1].last_triggered, Some(utc(99)));
    assert_eq!(rules[0].last_triggered, None);
    assert_eq!(rules[1].id, "b");
    assert_eq!(rules.len(), 2);
}
