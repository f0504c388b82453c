use rsgewatch::clock::{TimeOfDay, UtcInstant, Weekday};
use rsgewatch::forms::{
    all_weekdays, build_event_kind, form_target_label, frequency_for, mark_sold, name_of_investment,
    remove_investment, rule_from_form, rule_target_label, save_edit, schedule_from_form,
    remove_event_rule, remove_schedule, submit_new_investment, submit_new_investment_at, time_from_fields, weekday_label, EditInvestmentForm, EventKindChoice,
    FrequencyKind, NewEventRuleForm, NewInvestmentForm, NewScheduleForm, UiState,
};
use rsgewatch::investment::{Game, Investment, InvestmentStatus};
use rsgewatch::schedule::{describe_whole, EventKind, Frequency, PercentThreshold, TimeSchedule, EventRule};

fn inv(id: &str, name: &str) -> Investment {
    Investment {
        id: id.to_string(),
        item_name: name.to_string(),
        item_id: Some(4151),
        game: Game::Osrs,
        purchase_date: UtcInstant { secs: 1_709_251_200, nanos: 0 },
        purchase_price: 1_500_000,
        quantity: 2,
        notes: Some("note".to_string()),
        status: InvestmentStatus::Active,
        current_price: Some(1_600_000),
        previous_price: Some(1_550_000),
        last_updated: None,
        sold_price: None,
        sold_date: None,
    }
}

fn filled_form() -> NewInvestmentForm {
    NewInvestmentForm {
        game: Game::Osrs,
        item_name: "  Abyssal whip ".to_string(),
        item_id: " 4151".to_string(),
        purchase_date: "2024-03-01".to_string(),
        purchase_price: "1500000".to_string(),
        quantity: " 3 ".to_string(),
        notes: "   ".to_string(),
        date_error: false,
    }
}

#[test]
fn labels_and_choices() {
    assert_eq!(FrequencyKind::all().len(), 6);
    assert_eq!(FrequencyKind::all()[5].label(), "Every X hours");
    assert_eq!(EventKindChoice::all().len(), 7);
    assert_eq!(EventKindChoice::all()[0].label(), "Price above (gp)");
    assert_eq!(EventKindChoice::ValueBelow.label(), "Value below (gp, whole investment)");
    assert_eq!(EventKindChoice::SignificantMove.threshold_label(), "Percent (e.g. 10 for 10%)");
    assert_eq!(EventKindChoice::PriceBelow.threshold_label(), "Single-item price (gp)");
    assert_eq!(weekday_label(Weekday::Wed), "Wednesday");
    assert_eq!(all_weekdays()[6], Weekday::Sun);
}

#[test]
fn frequency_interval_is_at_least_one() {
    assert_eq!(frequency_for(FrequencyKind::EveryXDays, 0), Frequency::EveryXDays(1));
    assert_eq!(frequency_for(FrequencyKind::EveryXHours, 6), Frequency::EveryXHours(6));
    assert_eq!(frequency_for(FrequencyKind::Monthly, 9), Frequency::Monthly);
}

#[test]
fn time_fields() {
    assert_eq!(time_from_fields(8, 30), TimeOfDay::from_hm(8, 30));
    assert_eq!(time_from_fields(-1, 0), None);
    assert_eq!(time_from_fields(23, 60), None);
}

#[test]
fn submit_complete_form_adds_and_resets() {
    let mut form = filled_form();
    let added = submit_new_investment(&mut form).unwrap();
    assert_eq!(added.item_name, "Abyssal whip");
    assert_eq!(added.item_id, Some(4151));
    assert_eq!(added.game, Game::Osrs);
    assert_eq!(added.purchase_date, UtcInstant { secs: 1_709_251_200, nanos: 0 });
    assert_eq!(added.purchase_price, 1_500_000);
    assert_eq!(added.quantity, 3);
    assert_eq!(added.notes, None);
    assert_eq!(added.status, InvestmentStatus::Active);
    assert!(!added.id.is_empty());
    assert_eq!(form.item_name, "");
    assert_eq!(form.game, Game::Rs3);
    assert!(!form.date_error);
}

#[test]
fn submit_with_bad_date_flags_it() {
    let mut form = filled_form();
    form.purchase_date = "03/01/2024".to_string();
    assert!(submit_new_investment(&mut form).is_none());
    assert!(form.date_error);
    assert_eq!(form.item_name, "  Abyssal whip ");
}

#[test]
fn submit_incomplete_form_keeps_it() {
    let mut form = filled_form();
    form.quantity = "0".to_string();
    assert!(submit_new_investment(&mut form).is_none());
    assert!(!form.date_error);
    assert_eq!(form.quantity, "0");
    let mut form = filled_form();
    form.purchase_price = "1.5m".to_string();
    assert!(submit_new_investment(&mut form).is_none());
}

#[test]
fn submit_blank_date_means_now() {
    let mut form = filled_form();
    form.purchase_date = " ".to_string();
    form.item_id = "whip".to_string();
    form.notes = " bought low ".to_string();
    let added = submit_new_investment(&mut form).unwrap();
    assert!(added.purchase_date.secs > 1_700_000_000);
    assert_eq!(added.item_id, None);
    assert_eq!(added.notes.as_deref(), Some("bought low"));
}

#[test]
fn edit_form_round_trip() {
    let before = inv("a", "Whip");
    let form = EditInvestmentForm::from_investment(&before);
    assert_eq!(form.purchase_date, "2024-03-01");
    assert_eq!(form.item_id, "4151");
    assert_eq!(form.purchase_price, "1500000");
    assert_eq!(form.quantity, "2");
    assert_eq!(form.notes, "note");
    let mut edited = before.clone();
    let mut form = form;
    assert!(save_edit(&mut edited, &mut form));
    assert_eq!(edited.purchase_date, before.purchase_date);
    assert_eq!(edited.purchase_price, before.purchase_price);
    assert_eq!(edited.notes, before.notes);
    assert_eq!(edited.current_price, before.current_price);
    assert!(form.error.is_none());
}

#[test]
fn edit_errors_in_order() {
    let before = inv("a", "Whip");
    let cases = [
        ("", "10", "1", "", "Item name can't be empty."),
        ("x", "0", "0", "", "Purchase price must be a whole number greater than 0."),
        ("x", "10", "-1", "", "Quantity must be a whole number greater than 0."),
        ("x", "10", "1", "yesterday", "Couldn't read that date -- use YYYY-MM-DD."),
    ];
    for (name, price, qty, date, message) in cases {
        let mut edited = before.clone();
        let mut form = EditInvestmentForm::from_investment(&before);
        form.item_name = name.to_string();
        form.purchase_price = price.to_string();
        form.quantity = qty.to_string();
        form.purchase_date = date.to_string();
        assert!(!save_edit(&mut edited, &mut form));
        assert_eq!(form.error.as_deref(), Some(message));
        assert_eq!(edited.item_name, before.item_name);
        assert_eq!(edited.quantity, before.quantity);
    }
}

#[test]
fn edit_applies_new_values() {
    let mut edited = inv("a", "Whip");
    let mut form = EditInvestmentForm::from_investment(&edited);
    form.item_name = " Whip (t) ".to_string();
    form.purchase_date = "".to_string();
    form.purchase_price = "900".to_string();
    form.quantity = "5".to_string();
    form.item_id = "".to_string();
    form.notes = "".to_string();
    form.game = Game::Rs3;
    assert!(save_edit(&mut edited, &mut form));
    assert_eq!(edited.item_name, "Whip (t)");
    assert_eq!(edited.purchase_price, 900);
    assert_eq!(edited.quantity, 5);
    assert_eq!(edited.item_id, None);
    assert_eq!(edited.notes, None);
    assert_eq!(edited.game, Game::Rs3);
    assert_eq!(edited.purchase_date.secs, 1_709_251_200);
    assert_eq!(edited.id, "a");
}

#[test]
fn sold_at_current_or_purchase_price() {
    let now = UtcInstant { secs: 1_800_000_000, nanos: 0 };
    let mut a = inv("a", "Whip");
    mark_sold(&mut a, now);
    assert_eq!(a.status, InvestmentStatus::Sold);
    assert_eq!(a.sold_price, Some(1_600_000));
    assert_eq!(a.sold_date, Some(now));
    let mut b = inv("b", "Whip");
    b.current_price = None;
    mark_sold(&mut b, now);
    assert_eq!(b.sold_price, Some(1_500_000));
}

#[test]
fn remove_deletes_every_match() {
    let mut invs = vec![inv("a", "A"), inv("b", "B"), inv("a", "A2"), inv("c", "C")];
    remove_investment(&mut invs, "a");
    let ids: Vec<&str> = invs.iter().map(|i| i.id.as_str()).collect();
    assert_eq!(ids, vec!["b", "c"]);
    remove_investment(&mut invs, "zzz");
    assert_eq!(invs.len(), 2);
}

#[test]
fn schedule_form_defaults() {
    let form = NewScheduleForm::default();
    let s = schedule_from_form(&form);
    assert_eq!(s.name, "Portfolio summary");
    assert_eq!(s.frequency, Frequency::Daily);
    assert_eq!(s.time_of_day, TimeOfDay::from_hm(8, 0).unwrap());
    assert!(s.enabled);
    assert!(s.last_run.is_none());
    let form = NewScheduleForm {
        name: "  ".to_string(),
        kind: FrequencyKind::EveryXHours,
        every_x: 0,
        day_of_week: Weekday::Sat,
        hour: 30,
        minute: 0,
    };
    let s = schedule_from_form(&form);
    assert_eq!(s.name, "Every 1 hours");
    assert_eq!(s.frequency, Frequency::EveryXHours(1));
    assert_eq!(s.time_of_day, TimeOfDay::midnight());
    assert_eq!(s.day_of_week, Weekday::Sat);
}

#[test]
fn event_kinds_from_threshold_text() {
    assert_eq!(build_event_kind(EventKindChoice::PriceAbove, " 500 ", None), Ok(EventKind::PriceAbove(500)));
    assert_eq!(
        build_event_kind(EventKindChoice::ValueBelow, "5k", None),
        Err("Enter a whole number of gp.".to_string())
    );
    assert_eq!(
        build_event_kind(EventKindChoice::ProfitAboveGp, "-250", None),
        Ok(EventKind::ProfitAboveGp(-250))
    );
    assert_eq!(
        build_event_kind(EventKindChoice::ProfitAboveGp, "x", None),
        Err("Enter a whole number of gp (can be negative).".to_string())
    );
    let p = PercentThreshold { bits: 15.5f64.to_bits() };
    assert_eq!(
        build_event_kind(EventKindChoice::ProfitAbovePercent, "15.5", Some(p)),
        Ok(EventKind::ProfitAbovePercent(p))
    );
    assert_eq!(
        build_event_kind(EventKindChoice::ProfitAbovePercent, "abc", None),
        Err("Enter a percentage, e.g. 15 or 15.5.".to_string())
    );
    assert_eq!(
        build_event_kind(EventKindChoice::SignificantMove, "abc", None),
        Err("Enter a percentage, e.g. 10 or 10.5.".to_string())
    );
}

#[test]
fn rule_names_and_targets() {
    let invs = vec![inv("a", "Whip"), inv("b", "Bond")];
    let mut form = NewEventRuleForm::default();
    assert_eq!(form.threshold, "10");
    let r = rule_from_form(&form, EventKind::PriceAbove(5), "Price above 5 gp".to_string());
    assert_eq!(r.name, "Price above 5 gp");
    assert!(r.enabled);
    assert_eq!(r.item_id, None);
    form.name = " My rule ".to_string();
    form.target_investment_id = Some("b".to_string());
    let r = rule_from_form(&form, EventKind::PriceAbove(5), "ignored".to_string());
    assert_eq!(r.name, "My rule");
    assert_eq!(r.item_id.as_deref(), Some("b"));

    assert_eq!(rule_target_label(&None, &invs), "all active investments");
    assert_eq!(rule_target_label(&Some("b".to_string()), &invs), "Bond");
    assert_eq!(rule_target_label(&Some("gone".to_string()), &invs), "(deleted investment)");
    assert_eq!(form_target_label(&None, &invs), "All active investments");
    assert_eq!(form_target_label(&Some("a".to_string()), &invs), "Whip");
    assert_eq!(form_target_label(&Some("gone".to_string()), &invs), "All active investments");
    assert_eq!(name_of_investment(&invs, &"b".to_string()).as_deref(), Some("Bond"));
}

#[test]
fn ui_state_defaults() {
    let ui = UiState::default();
    assert!(!ui.telegram_show_secrets);
    assert!(ui.editing.is_none());
    assert_eq!(ui.new_schedule.hour, 8);
    assert_eq!(ui.new_event_rule.kind, EventKindChoice::SignificantMove);
    assert_eq!(ui.new_investment.purchase_date.len(), 10);
}

#[test]
fn purchase_dates_are_read_as_utc_midnight() {
    let mut form = filled_form();
    form.purchase_date = "1970-01-01".to_string();
    assert_eq!(submit_new_investment(&mut form).unwrap().purchase_date, UtcInstant { secs: 0, nanos: 0 });
    let mut form = filled_form();
    form.purchase_date = "2024-02-30".to_string();
    assert!(submit_new_investment(&mut form).is_none());
    assert!(form.date_error);
    let mut form = filled_form();
    form.purchase_date = "tomorrow".to_string();
    assert!(submit_new_investment(&mut form).is_none());
    assert!(form.date_error);
}

#[test]
fn edit_form_shows_the_utc_date() {
    let mut a = inv("a", "Whip");
    a.purchase_date = UtcInstant { secs: 1_709_251_200 + 86_399, nanos: 5 };
    assert_eq!(EditInvestmentForm::from_investment(&a).purchase_date, "2024-03-01");
    a.purchase_date = UtcInstant { secs: -1, nanos: 0 };
    assert_eq!(EditInvestmentForm::from_investment(&a).purchase_date, "1969-12-31");
}

#[test]
fn new_records_get_fresh_hyphenated_ids() {
    let a = submit_new_investment(&mut filled_form()).unwrap().id;
    let b = submit_new_investment(&mut filled_form()).unwrap().id;
    assert_eq!(a.len(), 36);
    for k in [8usize, 13, 18, 23] {
        assert_eq!(a.as_bytes()[k], b'-');
    }
    assert_ne!(a, b);
    let s = schedule_from_form(&NewScheduleForm::default());
    assert_eq!(s.id.len(), 36);
    let r = rule_from_form(&NewEventRuleForm::default(), EventKind::PriceAbove(1), "x".to_string());
    assert_ne!(r.id, s.id);
}

#[test]
fn whole_gp_conditions_are_described() {
    assert_eq!(describe_whole(EventKind::PriceAbove(500)).as_deref(), Some("Price above 500 gp"));
    assert_eq!(describe_whole(EventKind::PriceBelow(7)).as_deref(), Some("Price below 7 gp"));
    assert_eq!(
        describe_whole(EventKind::ValueAbove(1_000_000)).as_deref(),
        Some("Value above 1000000 gp (whole investment)")
    );
    assert_eq!(
        describe_whole(EventKind::ValueBelow(0)).as_deref(),
        Some("Value below 0 gp (whole investment)")
    );
    assert_eq!(describe_whole(EventKind::ProfitAboveGp(-250)).as_deref(), Some("Profit above -250 gp"));
    assert_eq!(
        describe_whole(EventKind::ProfitAboveGp(i64::MIN)).as_deref(),
        Some("Profit above -9223372036854775808 gp")
    );
    assert_eq!(describe_whole(EventKind::ProfitAboveGp(12)).as_deref(), Some("Profit above 12 gp"));
    let p = PercentThreshold { bits: 10.0f64.to_bits() };
    assert_eq!(describe_whole(EventKind::SignificantMove(p)), None);
    assert_eq!(describe_whole(EventKind::ProfitAbovePercent(p)), None);
}

fn sched_named(id: &str) -> TimeSchedule {
    let mut s = schedule_from_form(&NewScheduleForm::default());
    s.id = id.to_string();
    s
}

#[test]
fn schedules_and_rules_are_removed_by_id() {
    let mut ss = vec![sched_named("a"), sched_named("b"), sched_named("a")];
    remove_schedule(&mut ss, "a");
    assert_eq!(ss.len(), 1);
    assert_eq!(ss[0].id, "b");
    let rule = |id: &str| EventRule {
        id: id.to_string(),
        name: id.to_string(),
        item_id: None,
        kind: EventKind::PriceAbove(1),
        enabled: true,
        last_triggered: None,
    };
    let mut rs = vec![rule("x"), rule("y"), rule("z")];
    remove_event_rule(&mut rs, "y");
    assert_eq!(rs.iter().map(|r| r.id.as_str()).collect::<Vec<_>>(), vec!["x", "z"]);
    remove_event_rule(&mut rs, "none");
    assert_eq!(rs.len(), 2);
}

#[test]
fn blank_schedule_names_follow_the_frequency() {
    let mut form = NewScheduleForm::default();
    form.name = "   ".to_string();
    assert_eq!(schedule_from_form(&form).name, "Daily");
    form.kind = FrequencyKind::EveryXDays;
    form.every_x = 3;
    assert_eq!(schedule_from_form(&form).name, "Every 3 days");
    form.kind = FrequencyKind::EveryXHours;
    form.every_x = 0;
    assert_eq!(schedule_from_form(&form).name, "Every 1 hours");
    form.name = " Weekly report ".to_string();
    assert_eq!(schedule_from_form(&form).name, "Weekly report");
}

#[test]
fn incomplete_or_undated_forms_are_left_as_typed() {
    let mut form = filled_form();
    form.quantity = "".to_string();
    let typed = form.clone();
    assert!(submit_new_investment(&mut form).is_none());
    assert_eq!(form.item_name, typed.item_name);
    assert_eq!(form.item_id, typed.item_id);
    assert_eq!(form.purchase_date, typed.purchase_date);
    assert_eq!(form.purchase_price, typed.purchase_price);
    assert_eq!(form.quantity, typed.quantity);
    assert_eq!(form.notes, typed.notes);
    assert_eq!(form.game, typed.game);
    let mut form = filled_form();
    form.purchase_date = "soon".to_string();
    assert!(submit_new_investment(&mut form).is_none());
    assert!(form.date_error);
    assert_eq!(form.purchase_price, "1500000");
    assert_eq!(form.quantity, " 3 ");
}

#[test]
fn submit_at_a_given_moment() {
    let now = UtcInstant { secs: 1_750_000_000, nanos: 42 };
    let mut form = filled_form();
    form.purchase_date = "".to_string();
    let added = submit_new_investment_at(&mut form, now).unwrap();
    assert_eq!(added.purchase_date, now);
    assert_eq!(form.purchase_price, "");
    assert_eq!(form.quantity, "");
    assert_eq!(form.notes, "");
    assert_eq!(form.item_id, "");
    assert_eq!(form.purchase_date.len(), 10);
}
