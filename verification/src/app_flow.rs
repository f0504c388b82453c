//! Decisions of the main window: the tabs, what closing the window does,
//! and the "Look up on GE" flow of the add-investment form.
use vstd::prelude::*;

use crate::forms::NewInvestmentForm;
use crate::investment::Game;
use crate::known_items::{is_known_entry, known_items_spec, search, shortlist_matches};
use crate::prices::ItemDetail;
use crate::text::{
    dec, decimal, eq_ignore_ascii_case, eq_ignore_ascii_case_spec, is_blank, parse_u32, parse_u32_spec,
    push_decimal, trim_spec, trimmed,
};
use crate::widgets::{format_gp, format_gp_spec};

verus! {

/// What the user chose in the close dialog.
#[derive(Debug, Clone, Copy, PartialEq, Eq, Structural)]
pub enum CloseAction {
    Cancel,
    Minimize,
    Exit,
}

/// The tabs of the main window.
#[derive(Debug, Clone, Copy, PartialEq, Eq, Structural)]
pub enum Tab {
    Dashboard,
    Investments,
    Schedules,
    Telegram,
    Statistics,
    Settings,
}

/// What the window has to do after a close request or a dialog choice.
#[derive(Debug, Clone, Copy, PartialEq, Eq, Structural)]
pub enum WindowCommand {
    Nothing,
    HideToTray,
    ExitProcess,
}

/// Whether the close dialog is showing, and whether the user asked not to be
/// asked again.
#[derive(Debug, Clone, Copy, PartialEq, Eq, Structural)]
pub struct CloseState {
    pub show_close_dialog: bool,
    pub dont_ask_again: bool,
}

impl CloseState {
    /// The state at start: no dialog, and asking.
    pub fn new() -> (r: CloseState)
        ensures
            !r.show_close_dialog,
            !r.dont_ask_again,
    {
        CloseState { show_close_dialog: false, dont_ask_again: false }
    }

    /// The window's close button was pressed (the close itself is always
    /// cancelled): hide to the tray if the user asked not to be asked again,
    /// otherwise show the dialog.
    pub fn on_close_requested(&mut self) -> (cmd: WindowCommand)
        ensures
            old(self).dont_ask_again ==> cmd == WindowCommand::HideToTray && *final(self) == *old(self),
            !old(self).dont_ask_again ==> cmd == WindowCommand::Nothing && *final(self) == (CloseState {
                show_close_dialog: true,
                ..*old(self)
            }),
    {
        if self.dont_ask_again {
            WindowCommand::HideToTray
        } else {
            self.show_close_dialog = true;
            WindowCommand::Nothing
        }
    }

    /// A button of the dialog was clicked: the dialog closes, and the window
    /// hides, the process exits, or nothing happens.
    pub fn on_dialog_action(&mut self, action: CloseAction) -> (cmd: WindowCommand)
        ensures
            *final(self) == (CloseState { show_close_dialog: false, ..*old(self) }),
            cmd == (match action {
                CloseAction::Minimize => WindowCommand::HideToTray,
                CloseAction::Exit => WindowCommand::ExitProcess,
                CloseAction::Cancel => WindowCommand::Nothing,
            }),
    {
        self.show_close_dialog = false;
        match action {
            CloseAction::Minimize => WindowCommand::HideToTray,
            CloseAction::Exit => WindowCommand::ExitProcess,
            CloseAction::Cancel => WindowCommand::Nothing,
        }
    }
}

/// An item found by a lookup.
#[derive(Debug, Clone, PartialEq, Eq)]
pub struct ResolvedItem {
    pub id: u32,
    pub name: String,
    pub current_price: Option<u64>,
    pub members: bool,
}

/// What a lookup found: one item, or several to choose from.
#[derive(Debug, Clone)]
pub enum GeLookupOutcome {
    Single(ResolvedItem),
    Multiple(Vec<ResolvedItem>),
}

/// A lookup's result, with what was looked up (an item ID or a name), so
/// the form can tell whether it still applies.
#[derive(Debug)]
pub struct GeLookupResult {
    pub query: String,
    pub outcome: Result<GeLookupOutcome, String>,
}

/// What a "Look up on GE" click asks for.
#[derive(Debug, Clone, PartialEq, Eq)]
pub enum LookupRequest {
    /// The item ID field holds an ID: confirm it in the catalogue.
    ById(u32),
    /// The name matches these items of the built-in shortlist (their IDs, in
    /// shortlist order): confirm them in the catalogue.
    Known(Vec<u32>),
    /// The name matches no item of the shortlist.
    NotListed,
    /// Neither an ID nor a name was typed.
    NothingTyped,
}

/// Decides what a lookup asks for from the (already trimmed) item ID and
/// name fields: a numeric ID first; else a name, resolved through the
/// known-items shortlist of the game only (the catalogue has no free-text
/// search; unlisted items are entered by ID).
pub fn lookup_request(id_text: &str, name_text: &str, game: Game) -> (r: LookupRequest)
    ensures
        parse_u32_spec(id_text@) matches Some(id) ==> r == LookupRequest::ById(id),
        parse_u32_spec(id_text@) is None && name_text@.len() == 0 ==> r == LookupRequest::NothingTyped,
        parse_u32_spec(id_text@) is None && name_text@.len() > 0 && shortlist_matches(name_text@, game).len()
            == 0 ==> r == LookupRequest::NotListed,
        parse_u32_spec(id_text@) is None && name_text@.len() > 0 && shortlist_matches(name_text@, game).len()
            > 0 ==> (r matches LookupRequest::Known(ids) && ids@.len() == shortlist_matches(name_text@, game).len()
            && forall|j: int|
            0 <= j < ids@.len() ==> #[trigger] ids@[j] == known_items_spec()[shortlist_matches(name_text@, game)[j]].1),
{
    match parse_u32(id_text) {
        Some(id) => LookupRequest::ById(id),
        None => if name_text.unicode_len() == 0 {
            LookupRequest::NothingTyped
        } else {
            let hits = search(name_text, game);
            if hits.len() == 0 {
                LookupRequest::NotListed
            } else {
                let mut ids: Vec<u32> = Vec::new();
                let n = hits.len();
                let mut i: usize = 0;
                while i < n
                    invariant
                        n == hits@.len(),
                        n == shortlist_matches(name_text@, game).len(),
                        i <= n,
                        ids@.len() == i,
                        forall|j: int|
                            0 <= j < n ==> is_known_entry(#[trigger] hits@[j], shortlist_matches(name_text@, game)[j]),
                        forall|j: int|
                            0 <= j < i ==> #[trigger] ids@[j] == known_items_spec()[shortlist_matches(
                                name_text@,
                                game,
                            )[j]].1,
                    decreases n - i,
                {
                    proof {
                        assert(is_known_entry(hits@[i as int], shortlist_matches(name_text@, game)[i as int]));
                    }
                    ids.push(hits[i].item_id);
                    i = i + 1;
                }
                LookupRequest::Known(ids)
            }
        },
    }
}

/// The result shown when a typed name matches no item of the shortlist.
pub fn not_listed_lookup(game: Game, query: &str) -> (r: GeLookupResult)
    ensures
        r.query@ == query@,
        r.outcome matches Err(m) && m@ == no_match_message(game, query@),
{
    let mut m = String::from_str("No ");
    m.append(game.label());
    m.append(" item matched \"");
    m.append(query);
    m.append("\". Try a more specific name or paste the item ID from the wiki.");
    GeLookupResult { query: String::from_str(query), outcome: Err(m) }
}

/// The result shown while a lookup for `query` is under way.
pub fn pending_lookup(query: &str) -> (r: GeLookupResult)
    ensures
        r.query@ == query@,
        r.outcome matches Err(m) && m@ == "Looking up..."@,
{
    GeLookupResult { query: String::from_str(query), outcome: Err(String::from_str("Looking up...")) }
}

/// The result shown when neither an ID nor a name was typed.
pub fn nothing_typed_lookup() -> (r: GeLookupResult)
    ensures
        r.query@.len() == 0,
        r.outcome matches Err(m) && m@ == "Type an item name or numeric ID first."@,
{
    GeLookupResult {
        query: String::new(),
        outcome: Err(String::from_str("Type an item name or numeric ID first.")),
    }
}

/// The found item of a catalogue entry.
pub fn resolved_from(d: ItemDetail) -> (r: ResolvedItem)
    ensures
        r.id == d.id,
        r.name == d.name,
        r.current_price == d.current_price,
        r.members == d.members,
{
    ResolvedItem { id: d.id, name: d.name, current_price: d.current_price, members: d.members }
}

/// The message of a name search that matched nothing.
pub open spec fn no_match_message(game: Game, query: Seq<char>) -> Seq<char> {
    "No "@ + game.label_spec() + " item matched \""@ + query
        + "\". Try a more specific name or paste the item ID from the wiki."@
}

/// The outcome of a name lookup from the catalogue entries of the items it
/// found: an error when there is none, the item when there is one, the list
/// otherwise.
pub fn outcome_from_search(game: Game, query: &str, results: Vec<ItemDetail>) -> (r: Result<GeLookupOutcome, String>)
    ensures
        results@.len() == 0 ==> (r matches Err(m) && m@ == no_match_message(game, query@)),
        results@.len() == 1 ==> (r matches Ok(GeLookupOutcome::Single(it)) && it.id == results@[0].id
            && it.name == results@[0].name && it.current_price == results@[0].current_price
            && it.members == results@[0].members),
        results@.len() > 1 ==> (r matches Ok(GeLookupOutcome::Multiple(items)) && items@.len()
            == results@.len() && forall|i: int| 0 <= i < items@.len() ==> {
                &&& (#[trigger] items@[i]).id == results@[i].id
                &&& items@[i].name == results@[i].name
                &&& items@[i].current_price == results@[i].current_price
                &&& items@[i].members == results@[i].members
            }),
{
    let n = results.len();
    if n == 0 {
        let mut m = String::from_str("No ");
        m.append(game.label());
        m.append(" item matched \"");
        m.append(query);
        m.append("\". Try a more specific name or paste the item ID from the wiki.");
        return Err(m);
    }
    let ghost orig = results@;
    let mut rest = results;
    if n == 1 {
        let d = rest.remove(0);
        return Ok(GeLookupOutcome::Single(resolved_from(d)));
    }
    let mut items: Vec<ResolvedItem> = Vec::new();
    let mut i: usize = 0;
    while i < n
        invariant
            n == orig.len(),
            i <= n,
            rest@ == orig.subrange(i as int, n as int),
            items@.len() == i,
            forall|k: int| 0 <= k < i ==> {
                &&& (#[trigger] items@[k]).id == orig[k].id
                &&& items@[k].name == orig[k].name
                &&& items@[k].current_price == orig[k].current_price
                &&& items@[k].members == orig[k].members
            },
        decreases n - i,
    {
        let d = rest.remove(0);
        assert(d == orig[i as int]);
        assert(rest@ =~= orig.subrange(i + 1, n as int));
        items.push(resolved_from(d));
        i = i + 1;
    }
    Ok(GeLookupOutcome::Multiple(items))
}

/// A lookup result still applies to the form: its query is the typed item ID,
/// or the typed name in any ASCII case (both trimmed).
pub open spec fn still_relevant_spec(query: Seq<char>, item_id_text: Seq<char>, item_name_text: Seq<char>) -> bool {
    query == trim_spec(item_id_text) || eq_ignore_ascii_case_spec(query, trim_spec(item_name_text))
}

/// Whether a lookup result still applies to what the form holds.
pub fn lookup_still_relevant(result: &GeLookupResult, form: &NewInvestmentForm) -> (r: bool)
    ensures
        r == still_relevant_spec(result.query@, form.item_id@, form.item_name@),
{
    let id_text = trimmed(form.item_id.as_str());
    if result.query == id_text {
        return true;
    }
    let name_text = trimmed(form.item_name.as_str());
    eq_ignore_ascii_case(result.query.as_str(), name_text.as_str())
}

/// "Use this": the form takes the item's ID, and its name when the name
/// field is blank.
pub fn apply_lookup_choice(form: &mut NewInvestmentForm, id: u32, name: String)
    ensures
        final(form).item_id@ == dec(id as nat),
        final(form).item_name@ == (if trim_spec(old(form).item_name@).len() == 0 {
            name@
        } else {
            old(form).item_name@
        }),
        final(form).game == old(form).game,
        final(form).purchase_date == old(form).purchase_date,
        final(form).purchase_price == old(form).purchase_price,
        final(form).quantity == old(form).quantity,
        final(form).notes == old(form).notes,
        final(form).date_error == old(form).date_error,
{
    proof {
        crate::text::lemma_trim_empty(old(form).item_name@);
    }
    form.item_id = decimal(id as u64);
    if is_blank(form.item_name.as_str()) {
        form.item_name = name;
    }
}

/// How a found item is listed: its name and ID, then its current price and
/// whether it is members-only where known.
pub open spec fn resolved_line_spec(item: ResolvedItem) -> Seq<char> {
    let price = match item.current_price {
        Some(p) => " -- current price "@ + format_gp_spec(p as i64) + " gp"@,
        None => Seq::<char>::empty(),
    };
    let members = if item.members { " -- members"@ } else { Seq::<char>::empty() };
    item.name@ + " (id "@ + dec(item.id as nat) + ")"@ + price + members
}

/// How a found item is listed.
pub fn resolved_line(item: &ResolvedItem) -> (r: String)
    ensures
        r@ == resolved_line_spec(*item),
{
    let mut s = item.name.clone();
    s.append(" (id ");
    push_decimal(&mut s, item.id as u64);
    s.append(")");
    match item.current_price {
        Some(p) => {
            s.append(" -- current price ");
            let g = format_gp(p as i64);
            s.append(g.as_str());
            s.append(" gp");
        },
        None => {},
    }
    if item.members {
        s.append(" -- members");
    }
    s
}

} // verus!
