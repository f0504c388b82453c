//! A small, hand-curated list of items whose Grand Exchange IDs were
//! confirmed, used to resolve a typed item name to its ID.
use vstd::prelude::*;

use crate::investment::Game;
use crate::text::{contains, contains_spec, lower_text, to_lowercase, trim_spec, trimmed};

verus! {

/// An item whose ID is known.
#[derive(Debug, Clone, Copy, PartialEq, Eq)]
pub struct KnownItem {
    pub name: &'static str,
    pub item_id: u32,
    pub game: Game,
}

/// The known items, as (name, item ID, game).
pub open spec fn known_items_spec() -> Seq<(Seq<char>, u32, Game)> {
    seq![("Bond"@, 29492u32, Game::Rs3), ("Old school bond"@, 13190u32, Game::Osrs)]
}

/// `item` is entry `i` of the known items.
pub open spec fn is_known_entry(item: KnownItem, i: int) -> bool {
    &&& 0 <= i < known_items_spec().len()
    &&& item.name@ == known_items_spec()[i].0
    &&& item.item_id == known_items_spec()[i].1
    &&& item.game == known_items_spec()[i].2
}

/// The known items: the RS3 bond and the Old School bond.
pub fn known_items() -> (r: Vec<KnownItem>)
    ensures
        r@.len() == known_items_spec().len(),
        forall|i: int| 0 <= i < r@.len() ==> is_known_entry(#[trigger] r@[i], i),
{
    let bond = "Bond";
    let osrs_bond = "Old school bond";
    proof {
        reveal_strlit("Bond");
        reveal_strlit("Old school bond");
    }
    let mut v: Vec<KnownItem> = Vec::new();
    v.push(KnownItem { name: bond, item_id: 29492, game: Game::Rs3 });
    v.push(KnownItem { name: osrs_bond, item_id: 13190, game: Game::Osrs });
    v
}

/// The positions of the known items of `game` whose lower-cased name
/// contains `q`, among the first `k` entries.
pub open spec fn matching_entries(q: Seq<char>, game: Game, k: int) -> Seq<int>
    decreases k,
{
    if k <= 0 {
        Seq::empty()
    } else {
        let rest = matching_entries(q, game, k - 1);
        let e = known_items_spec()[k - 1];
        if e.2 == game && contains_spec(lower_text(e.0), q) {
            rest.push(k - 1)
        } else {
            rest
        }
    }
}

/// The query as it is matched: trimmed, then lower-cased.
pub open spec fn search_key(query: Seq<char>) -> Seq<char> {
    lower_text(trim_spec(query))
}

/// The positions of the known items a search for `query` in `game` finds:
/// none for a query that is empty once trimmed and lower-cased.
pub open spec fn shortlist_matches(query: Seq<char>, game: Game) -> Seq<int> {
    if search_key(query).len() == 0 {
        Seq::empty()
    } else {
        matching_entries(search_key(query), game, known_items_spec().len() as int)
    }
}

/// Case-insensitive substring search over the known items of one game; a
/// query that is empty once trimmed and lower-cased finds nothing.
pub fn search(query: &str, game: Game) -> (r: Vec<KnownItem>)
    ensures
        r@.len() == shortlist_matches(query@, game).len(),
        forall|j: int|
            0 <= j < r@.len() ==> is_known_entry(#[trigger] r@[j], shortlist_matches(query@, game)[j]),
{
    let t = trimmed(query);
    let q = to_lowercase(t.as_str());
    let mut out: Vec<KnownItem> = Vec::new();
    if q.as_str().unicode_len() == 0 {
        return out;
    }
    let items = known_items();
    let n = items.len();
    let mut i: usize = 0;
    while i < n
        invariant
            n == known_items_spec().len(),
            items@.len() == n,
            i <= n,
            q@ == search_key(query@),
            forall|k: int| 0 <= k < n ==> is_known_entry(#[trigger] items@[k], k),
            out@.len() == matching_entries(q@, game, i as int).len(),
            forall|j: int| 0 <= j < out@.len() ==> is_known_entry(#[trigger] out@[j], matching_entries(q@, game, i as int)[j]),
        decreases n - i,
    {
        let item = items[i];
        assert(is_known_entry(items@[i as int], i as int));
        let name = to_lowercase(item.name);
        if item.game == game && contains(name.as_str(), q.as_str()) {
            out.push(item);
        }
        i = i + 1;
    }
    out
}

} // verus!
