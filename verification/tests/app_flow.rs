use rsgewatch::app_flow::{
    apply_lookup_choice, lookup_request, lookup_still_relevant, not_listed_lookup, nothing_typed_lookup,
    outcome_from_search, pending_lookup, resolved_from, resolved_line, CloseAction, CloseState,
    GeLookupOutcome, LookupRequest, ResolvedItem, WindowCommand,
};
use rsgewatch::forms::NewInvestmentForm;
use rsgewatch::investment::Game;
use rsgewatch::prices::ItemDetail;

fn form(id: &str, name: &str) -> NewInvestmentForm {
    NewInvestmentForm {
        game: Game::Rs3,
        item_name: name.to_string(),
        item_id: id.to_string(),
        purchase_date: "2024-01-01".to_string(),
        purchase_price: "5".to_string(),
        quantity: "1".to_string(),
        notes: String::new(),
        date_error: false,
    }
}

fn detail(id: u32, name: &str) -> ItemDetail {
    ItemDetail { id, name: name.to_string(), current_price: Some(1_234_567), members: true }
}

#[test]
fn close_button_asks_then_obeys() {
    let mut st = CloseState::new();
    assert_eq!(st.on_close_requested(), WindowCommand::Nothing);
    assert!(st.show_close_dialog);
    assert_eq!(st.on_dialog_action(CloseAction::Cancel), WindowCommand::Nothing);
    assert!(!st.show_close_dialog);
    st.on_close_requested();
    assert_eq!(st.on_dialog_action(CloseAction::Minimize), WindowCommand::HideToTray);
    st.on_close_requested();
    assert_eq!(st.on_dialog_action(CloseAction::Exit), WindowCommand::ExitProcess);
    st.dont_ask_again = true;
    assert_eq!(st.on_close_requested(), WindowCommand::HideToTray);
    assert!(!st.show_close_dialog);
}

#[test]
fn lookup_prefers_an_id() {
    assert_eq!(lookup_request("29492", "bond", Game::Rs3), LookupRequest::ById(29492));
    assert_eq!(lookup_request("", "", Game::Rs3), LookupRequest::NothingTyped);
}

#[test]
fn names_resolve_through_the_shortlist_only() {
    assert_eq!(lookup_request("bond", "Bond", Game::Rs3), LookupRequest::Known(vec![29492]));
    assert_eq!(lookup_request("", "SCHOOL", Game::Osrs), LookupRequest::Known(vec![13190]));
    assert_eq!(lookup_request("", "bond", Game::Osrs), LookupRequest::Known(vec![13190]));
    assert_eq!(lookup_request("", "whip", Game::Rs3), LookupRequest::NotListed);
    assert_eq!(lookup_request("", "school", Game::Rs3), LookupRequest::NotListed);
    let r = not_listed_lookup(Game::Rs3, "whip");
    assert_eq!(r.query, "whip");
    assert_eq!(
        r.outcome.unwrap_err(),
        "No RS3 item matched \"whip\". Try a more specific name or paste the item ID from the wiki."
    );
}

#[test]
fn lookup_placeholders() {
    let p = pending_lookup("bond");
    assert_eq!(p.query, "bond");
    assert_eq!(p.outcome.unwrap_err(), "Looking up...");
    let n = nothing_typed_lookup();
    assert_eq!(n.query, "");
    assert_eq!(n.outcome.unwrap_err(), "Type an item name or numeric ID first.");
}

#[test]
fn search_outcomes() {
    assert_eq!(
        outcome_from_search(Game::Osrs, "zzz", vec![]).unwrap_err(),
        "No OSRS item matched \"zzz\". Try a more specific name or paste the item ID from the wiki."
    );
    match outcome_from_search(Game::Rs3, "bond", vec![detail(29492, "Bond")]).unwrap() {
        GeLookupOutcome::Single(it) => assert_eq!(it, resolved_from(detail(29492, "Bond"))),
        other => panic!("unexpected {other:?}"),
    }
    match outcome_from_search(Game::Rs3, "b", vec![detail(1, "A"), detail(2, "B")]).unwrap() {
        GeLookupOutcome::Multiple(items) => {
            assert_eq!(items.iter().map(|i| i.id).collect::<Vec<_>>(), vec![1, 2]);
            assert_eq!(items[1].name, "B");
        }
        other => panic!("unexpected {other:?}"),
    }
}

#[test]
fn lookup_relevance() {
    let r = pending_lookup("BOND");
    assert!(lookup_still_relevant(&r, &form("", " bond ")));
    assert!(!lookup_still_relevant(&r, &form("", "bonds")));
    let r = pending_lookup("29492");
    assert!(lookup_still_relevant(&r, &form(" 29492 ", "")));
}

#[test]
fn choosing_a_result_fills_the_form() {
    let mut f = form("", "  ");
    apply_lookup_choice(&mut f, 13190, "Old school bond".to_string());
    assert_eq!(f.item_id, "13190");
    assert_eq!(f.item_name, "Old school bond");
    let mut f = form("x", "my bond");
    apply_lookup_choice(&mut f, 29492, "Bond".to_string());
    assert_eq!(f.item_id, "29492");
    assert_eq!(f.item_name, "my bond");
    assert_eq!(f.purchase_price, "5");
}

#[test]
fn result_lines() {
    let it = ResolvedItem { id: 29492, name: "Bond".to_string(), current_price: Some(12_345_678), members: false };
    assert_eq!(resolved_line(&it), "Bond (id 29492) -- current price 12,345,678 gp");
    let it = ResolvedItem { id: 4151, name: "Abyssal whip".to_string(), current_price: None, members: true };
    assert_eq!(resolved_line(&it), "Abyssal whip (id 4151) -- members");
}
