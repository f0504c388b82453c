//! The Grand Exchange price requests and the reading of their responses:
//! the batch price endpoint used for refreshes, and the item catalogue used
//! for one-off lookups.
use vstd::prelude::*;

use crate::errors::AppError;
use crate::investment::Game;
use crate::json::{json_as_text, json_as_u64, json_get, json_get_opt, JsonValue};
use std::collections::HashMap;
use crate::text::{
    ascii_lower, dec, eq_ignore_ascii_case, eq_ignore_ascii_case_spec, parse_u32, parse_u32_spec, push_char,
    push_decimal, trim_spec, trimmed,
};
use crate::widgets::strip_commas;

verus! {

/// Root of the exchange history API.
pub open spec fn ge_api_root() -> Seq<char> {
    "https://api.weirdgloop.org/exchange/history"@
}

/// The item IDs as the `id` query parameter: decimal, separated by commas.
pub open spec fn join_ids(ids: Seq<u32>) -> Seq<char>
    decreases ids.len(),
{
    if ids.len() == 0 {
        Seq::empty()
    } else if ids.len() == 1 {
        dec(ids[0] as nat)
    } else {
        join_ids(ids.drop_last()) + seq![','] + dec(ids.last() as nat)
    }
}

/// The request for the latest prices of a batch of items of one game.
pub open spec fn price_url_spec(game: Game, ids: Seq<u32>) -> Seq<char> {
    ge_api_root() + "/"@ + game.api_key_spec() + "/latest?id="@ + join_ids(ids)
}

/// The URL that asks for the latest price of every item in `ids`, or
/// nothing when there is no item to ask for.
pub fn price_request_url(game: Game, ids: &Vec<u32>) -> (r: Option<String>)
    ensures
        ids@.len() == 0 ==> r is None,
        ids@.len() > 0 ==> (r matches Some(u) && u@ == price_url_spec(game, ids@)),
{
    let n = ids.len();
    if n == 0 {
        return None;
    }
    let mut url = String::from_str("https://api.weirdgloop.org/exchange/history");
    url.append("/");
    url.append(game.api_key());
    url.append("/latest?id=");
    let ghost prefix = url@;
    let mut i: usize = 0;
    while i < n
        invariant
            n == ids@.len(),
            n > 0,
            i <= n,
            url@ == prefix + join_ids(ids@.take(i as int)),
        decreases n - i,
    {
        proof {
            assert(ids@.take(i + 1).drop_last() =~= ids@.take(i as int));
            assert(ids@.take(i + 1).last() == ids@[i as int]);
        }
        if i > 0 {
            push_char(&mut url, ',');
        }
        push_decimal(&mut url, ids[i] as u64);
        proof {
            if i == 0 {
                assert(join_ids(ids@.take(0)) =~= Seq::<char>::empty());
                assert(prefix + Seq::<char>::empty() =~= prefix);
            } else {
                assert(prefix + join_ids(ids@.take(i + 1)) =~= prefix + join_ids(ids@.take(i as int))
                    + seq![','] + dec(ids@[i as int] as nat));
            }
        }
        i = i + 1;
    }
    assert(ids@.take(n as int) =~= ids@);
    Some(url)
}

/// The price a `latest` response gives for one item: the `price` field of
/// the item's object, or of the last element where the item's value is a
/// non-empty array.
pub open spec fn extract_price_spec(v: JsonValue) -> Option<u64> {
    let point = match v {
        JsonValue::Array(a) => if a@.len() > 0 { a@.last() } else { v },
        _ => v,
    };
    match json_get(point, "price"@) {
        Some(p) => json_as_u64(p),
        None => None,
    }
}

/// The `price` of one item's entry in a `latest` response.
pub fn extract_price(value: &JsonValue) -> (r: Option<u64>)
    ensures
        r == extract_price_spec(*value),
{
    let point: &JsonValue = match value {
        JsonValue::Array(a) => {
            let n = a.len();
            if n > 0 { &a[n - 1] } else { value }
        },
        _ => value,
    };
    match point.get("price") {
        Some(p) => p.as_u64(),
        None => None,
    }
}

/// The (item, price) pairs of an object's members: each member whose name
/// is an item ID and whose value carries a price.
pub open spec fn member_prices(members: Seq<(String, JsonValue)>) -> Seq<(u32, u64)>
    decreases members.len(),
{
    if members.len() == 0 {
        Seq::empty()
    } else {
        let rest = member_prices(members.drop_last());
        let m = members.last();
        match (parse_u32_spec(m.0@), extract_price_spec(m.1)) {
            (Some(id), Some(p)) => rest.push((id, p)),
            _ => rest,
        }
    }
}

/// The prices a `latest` response gives: the members of an object keyed by
/// item ID; for a single requested item, the response itself may be its
/// entry.
pub open spec fn response_prices(raw: JsonValue, ids: Seq<u32>) -> Seq<(u32, u64)> {
    match raw {
        JsonValue::Object(members) => member_prices(members@),
        _ => if ids.len() == 1 {
            match extract_price_spec(raw) {
                Some(p) => seq![(ids[0], p)],
                None => Seq::empty(),
            }
        } else {
            Seq::empty()
        },
    }
}

/// Reads the prices out of a `latest` response for the items `ids`, in
/// document order. Members that are not item IDs, or carry no price, are
/// left out.
pub fn response_price_entries(raw: &JsonValue, ids: &Vec<u32>) -> (r: Vec<(u32, u64)>)
    ensures
        r@ == response_prices(*raw, ids@),
{
    let mut out: Vec<(u32, u64)> = Vec::new();
    match raw {
        JsonValue::Object(members) => {
            let n = members.len();
            let mut i: usize = 0;
            while i < n
                invariant
                    *raw == JsonValue::Object(*members),
                    n == members@.len(),
                    i <= n,
                    out@ == member_prices(members@.take(i as int)),
                decreases n - i,
            {
                proof {
                    assert(members@.take(i + 1).drop_last() =~= members@.take(i as int));
                    assert(members@.take(i + 1).last() == members@[i as int]);
                }
                let key = members[i].0.as_str();
                match parse_u32(key) {
                    Some(id) => match extract_price(&members[i].1) {
                        Some(p) => out.push((id, p)),
                        None => {},
                    },
                    None => {},
                }
                i = i + 1;
            }
            assert(members@.take(n as int) =~= members@);
        },
        _ => {
            if ids.len() == 1 {
                match extract_price(raw) {
                    Some(p) => out.push((ids[0], p)),
                    None => {},
                }
            }
        },
    }
    out
}

/// The map from item ID to price once the pairs are inserted in order (a
/// later pair of the same item replaces an earlier one).
pub open spec fn entries_map(entries: Seq<(u32, u64)>) -> Map<u32, u64>
    decreases entries.len(),
{
    if entries.len() == 0 {
        Map::empty()
    } else {
        entries_map(entries.drop_last()).insert(entries.last().0, entries.last().1)
    }
}

/// The prices a `latest` response gives for the items `ids`, by item ID.
pub fn response_price_map(raw: &JsonValue, ids: &Vec<u32>) -> (m: HashMap<u32, u64>)
    ensures
        m@ == entries_map(response_prices(*raw, ids@)),
{
    broadcast use vstd::std_specs::hash::group_hash_axioms;
    let entries = response_price_entries(raw, ids);
    let mut m: HashMap<u32, u64> = HashMap::new();
    let n = entries.len();
    let mut i: usize = 0;
    while i < n
        invariant
            n == entries@.len(),
            i <= n,
            m@ == entries_map(entries@.take(i as int)),
        decreases n - i,
    {
        let (id, p) = entries[i];
        proof {
            assert(entries@.take(i + 1).drop_last() =~= entries@.take(i as int));
            assert(entries@.take(i + 1).last() == entries@[i as int]);
        }
        m.insert(id, p);
        i = i + 1;
    }
    assert(entries@.take(n as int) =~= entries@);
    m
}

/// The item-database path segment of the official catalogue for a game.
pub open spec fn item_db_prefix_spec(game: Game) -> Seq<char> {
    match game {
        Game::Rs3 => "m=itemdb_rs"@,
        Game::Osrs => "m=itemdb_oldschool"@,
    }
}

/// The item-database path segment of the official catalogue for a game.
pub fn item_db_prefix(game: Game) -> (r: &'static str)
    ensures
        r@ == item_db_prefix_spec(game),
{
    match game {
        Game::Rs3 => "m=itemdb_rs",
        Game::Osrs => "m=itemdb_oldschool",
    }
}

/// The catalogue search endpoint for a game, before its `query` parameter.
pub fn search_url(game: Game) -> (r: String)
    ensures
        r@ == "https://secure.runescape.com/"@ + item_db_prefix_spec(game)
            + "/api/catalogue/search.json"@,
{
    let mut url = String::from_str("https://secure.runescape.com/");
    url.append(item_db_prefix(game));
    url.append("/api/catalogue/search.json");
    url
}

/// The catalogue detail endpoint for one item of a game.
pub fn detail_url(game: Game, item_id: u32) -> (r: String)
    ensures
        r@ == "https://secure.runescape.com/"@ + item_db_prefix_spec(game)
            + "/api/catalogue/detail.json?item="@ + dec(item_id as nat),
{
    let mut url = String::from_str("https://secure.runescape.com/");
    url.append(item_db_prefix(game));
    url.append("/api/catalogue/detail.json?item=");
    push_decimal(&mut url, item_id as u64);
    url
}

/// The multiplier a price suffix stands for: k, m and b in either case.
pub open spec fn suffix_multiplier(c: char) -> Option<u64> {
    if c == 'k' || c == 'K' {
        Some(1_000)
    } else if c == 'm' || c == 'M' {
        Some(1_000_000)
    } else if c == 'b' || c == 'B' {
        Some(1_000_000_000)
    } else {
        None
    }
}

/// A catalogue price written as text, e.g. "2.5m" or "1,234": the number
/// (trimmed, commas removed) and the multiplier of its suffix; nothing for
/// blank text.
pub open spec fn price_parts_spec(s: Seq<char>) -> Option<(Seq<char>, u64)> {
    let cleaned = strip_commas(trim_spec(s));
    if cleaned.len() == 0 {
        None
    } else {
        match suffix_multiplier(cleaned.last()) {
            Some(m) => Some((trim_spec(cleaned.drop_last()), m)),
            None => Some((trim_spec(cleaned), 1)),
        }
    }
}

/// A catalogue price text (trimmed, commas removed) ending in `k`, `m` or `b`,
/// in either ASCII case, is the number before that letter times a thousand,
/// a million or a billion; any other text is the number itself, times one;
/// blank text is no price.
pub proof fn law_price_suffix(s: Seq<char>)
    ensures
        strip_commas(trim_spec(s)).len() == 0 ==> price_parts_spec(s) is None,
        strip_commas(trim_spec(s)).len() > 0 && ascii_lower(strip_commas(trim_spec(s)).last()) == 'k'
            ==> price_parts_spec(s) == Some((trim_spec(strip_commas(trim_spec(s)).drop_last()), 1_000u64)),
        strip_commas(trim_spec(s)).len() > 0 && ascii_lower(strip_commas(trim_spec(s)).last()) == 'm'
            ==> price_parts_spec(s) == Some((trim_spec(strip_commas(trim_spec(s)).drop_last()), 1_000_000u64)),
        strip_commas(trim_spec(s)).len() > 0 && ascii_lower(strip_commas(trim_spec(s)).last()) == 'b'
            ==> price_parts_spec(s) == Some(
            (trim_spec(strip_commas(trim_spec(s)).drop_last()), 1_000_000_000u64),
        ),
        strip_commas(trim_spec(s)).len() > 0 && ascii_lower(strip_commas(trim_spec(s)).last()) != 'k'
            && ascii_lower(strip_commas(trim_spec(s)).last()) != 'm' && ascii_lower(
            strip_commas(trim_spec(s)).last(),
        ) != 'b' ==> price_parts_spec(s) == Some((trim_spec(strip_commas(trim_spec(s))), 1u64)),
{
    let c = strip_commas(trim_spec(s));
    if c.len() > 0 {
        let l = c.last();
        assert(ascii_lower(l) == 'k' <==> (l == 'k' || l == 'K'));
        assert(ascii_lower(l) == 'm' <==> (l == 'm' || l == 'M'));
        assert(ascii_lower(l) == 'b' <==> (l == 'b' || l == 'B'));
    }
}

/// Removes every `,`.
fn without_commas(s: &str) -> (r: String)
    ensures
        r@ == strip_commas(s@),
{
    let n = s.unicode_len();
    let mut out = String::new();
    let mut i: usize = 0;
    while i < n
        invariant
            n == s@.len(),
            i <= n,
            out@ == strip_commas(s@.take(i as int)),
        decreases n - i,
    {
        let c = s.get_char(i);
        proof {
            assert(s@.take(i + 1).drop_last() =~= s@.take(i as int));
            assert(s@.take(i + 1).last() == c);
        }
        if c != ',' {
            push_char(&mut out, c);
        }
        i = i + 1;
    }
    assert(s@.take(n as int) =~= s@);
    out
}

/// Splits a catalogue price written as text into its number and multiplier.
pub fn price_string_parts(s: &str) -> (r: Option<(String, u64)>)
    ensures
        r matches Some(p) ==> price_parts_spec(s@) == Some((p.0@, p.1)),
        r is None ==> price_parts_spec(s@) is None,
{
    let t = trimmed(s);
    let cleaned = without_commas(t.as_str());
    let n = cleaned.as_str().unicode_len();
    if n == 0 {
        return None;
    }
    let last = cleaned.as_str().get_char(n - 1);
    let mult: u64 = if last == 'k' || last == 'K' {
        1_000
    } else if last == 'm' || last == 'M' {
        1_000_000
    } else if last == 'b' || last == 'B' {
        1_000_000_000
    } else {
        1
    };
    if mult > 1 {
        let head = cleaned.as_str().substring_char(0, n - 1);
        assert(head@ =~= cleaned@.drop_last());
        Some((trimmed(head), mult))
    } else {
        Some((trimmed(cleaned.as_str()), 1))
    }
}

/// `f` turns the number `num` with multiplier `mult` into `r`.
pub open spec fn scaled_by<F: Fn(&str, u64) -> Option<u64>>(
    f: F,
    num: Seq<char>,
    mult: u64,
    r: Option<u64>,
) -> bool {
    exists|t: &str| t@ == num && call_ensures(f, (t, mult), r)
}

/// `r` is what the catalogue's price value `v` reads as: a number as its
/// integer value, or rounded where it is not a non-negative integer that
/// fits; text through `scale`, which turns a decimal number and a multiplier
/// into a whole price.
pub open spec fn price_value_ok<F: Fn(&str, u64) -> Option<u64>>(
    v: JsonValue,
    scale: F,
    r: Option<u64>,
) -> bool {
    match v {
        JsonValue::Number(n) => r == (if n.as_u64 is Some { n.as_u64 } else { Some(n.rounded) }),
        JsonValue::Text(s) => match price_parts_spec(s@) {
            None => r is None,
            Some(p) => scaled_by(scale, p.0, p.1, r),
        },
        _ => r is None,
    }
}

/// Reads a catalogue price value.
pub fn parse_price_value<F: Fn(&str, u64) -> Option<u64>>(value: &JsonValue, scale: &F) -> (r: Option<u64>)
    requires
        forall|t: &str, m: u64| call_requires(*scale, (t, m)),
    ensures
        price_value_ok(*value, *scale, r),
{
    match value {
        JsonValue::Number(n) => match n.as_u64 {
            Some(v) => Some(v),
            None => Some(n.rounded),
        },
        JsonValue::Text(s) => match price_string_parts(s.as_str()) {
            Some((num, mult)) => {
                let t = num.as_str();
                let r = scale(t, mult);
                assert(t@ == num@);
                r
            },
            None => None,
        },
        _ => None,
    }
}

/// One item as the official catalogue describes it.
#[derive(Debug, Clone, PartialEq, Eq)]
pub struct ItemDetail {
    pub id: u32,
    pub name: String,
    pub current_price: Option<u64>,
    pub members: bool,
}

/// The `members` flag: the text "true" in any ASCII case.
pub open spec fn members_flag(v: Option<JsonValue>) -> bool {
    match v {
        Some(x) => match json_as_text(x) {
            Some(t) => eq_ignore_ascii_case_spec(t, "true"@),
            None => false,
        },
        None => false,
    }
}

/// `r` is the current price of a catalogue entry: its `current.price`, read
/// as a price value.
pub open spec fn current_price_ok<F: Fn(&str, u64) -> Option<u64>>(
    entry: JsonValue,
    scale: F,
    r: Option<u64>,
) -> bool {
    match json_get_opt(json_get(entry, "current"@), "price"@) {
        Some(p) => price_value_ok(p, scale, r),
        None => r is None,
    }
}

/// `r` is what one search result reads as: it needs a numeric `id` (cast to
/// `u32`) and a text `name`.
pub open spec fn search_result_ok<F: Fn(&str, u64) -> Option<u64>>(
    entry: JsonValue,
    scale: F,
    r: Option<ItemDetail>,
) -> bool {
    let id = match json_get(entry, "id"@) {
        Some(x) => json_as_u64(x),
        None => None,
    };
    let name = match json_get(entry, "name"@) {
        Some(x) => json_as_text(x),
        None => None,
    };
    if id is None || name is None {
        r is None
    } else {
        &&& r matches Some(d)
        &&& d.id == id.unwrap() as u32
        &&& d.name@ == name.unwrap()
        &&& current_price_ok(entry, scale, d.current_price)
        &&& d.members == members_flag(json_get(entry, "members"@))
    }
}

fn members_of(entry: &JsonValue) -> (r: bool)
    ensures
        r == members_flag(json_get(*entry, "members"@)),
{
    match entry.get("members") {
        Some(x) => match x.as_text() {
            Some(t) => eq_ignore_ascii_case(t.as_str(), "true"),
            None => false,
        },
        None => false,
    }
}

fn current_price_of<F: Fn(&str, u64) -> Option<u64>>(entry: &JsonValue, scale: &F) -> (r: Option<u64>)
    requires
        forall|t: &str, m: u64| call_requires(*scale, (t, m)),
    ensures
        current_price_ok(*entry, *scale, r),
{
    match entry.get("current") {
        Some(c) => match c.get("price") {
            Some(p) => parse_price_value(p, scale),
            None => None,
        },
        None => None,
    }
}

/// Reads one result of a catalogue search.
pub fn parse_search_result<F: Fn(&str, u64) -> Option<u64>>(entry: &JsonValue, scale: &F) -> (r: Option<ItemDetail>)
    requires
        forall|t: &str, m: u64| call_requires(*scale, (t, m)),
    ensures
        search_result_ok(*entry, *scale, r),
{
    let id = match entry.get("id") {
        Some(x) => match x.as_u64() {
            Some(v) => v as u32,
            None => return None,
        },
        None => return None,
    };
    let name = match entry.get("name") {
        Some(x) => match x.as_text() {
            Some(t) => t.clone(),
            None => return None,
        },
        None => return None,
    };
    let current_price = current_price_of(entry, scale);
    let members = members_of(entry);
    Some(ItemDetail { id, name, current_price, members })
}

/// The items of `opts` that are present, in order.
pub open spec fn present(opts: Seq<Option<ItemDetail>>) -> Seq<ItemDetail>
    decreases opts.len(),
{
    if opts.len() == 0 {
        Seq::empty()
    } else {
        match opts.last() {
            Some(d) => present(opts.drop_last()).push(d),
            None => present(opts.drop_last()),
        }
    }
}

/// `items` are the readable results among the array elements `elems`.
pub open spec fn search_items_ok<F: Fn(&str, u64) -> Option<u64>>(
    elems: Seq<JsonValue>,
    scale: F,
    items: Seq<ItemDetail>,
) -> bool {
    exists|opts: Seq<Option<ItemDetail>>| {
        &&& opts.len() == elems.len()
        &&& forall|i: int| 0 <= i < elems.len() ==> search_result_ok(#[trigger] elems[i], scale, opts[i])
        &&& items == present(opts)
    }
}

/// The `results` array of a catalogue search response.
pub open spec fn results_array(raw: JsonValue) -> Option<Seq<JsonValue>> {
    match json_get(raw, "results"@) {
        Some(JsonValue::Array(a)) => Some(a@),
        _ => None,
    }
}

/// Reads a catalogue search response: every result that has an ID and a
/// name; an error when there is no `results` array.
pub fn search_results<F: Fn(&str, u64) -> Option<u64>>(raw: &JsonValue, scale: &F) -> (r: Result<Vec<ItemDetail>, AppError>)
    requires
        forall|t: &str, m: u64| call_requires(*scale, (t, m)),
    ensures
        results_array(*raw) is None ==> (r matches Err(AppError::GeApi(m)) && m@
            == "Item search response did not contain results"@),
        results_array(*raw) matches Some(elems) ==> (r matches Ok(items) && search_items_ok(elems, *scale, items@)),
{
    let arr = match raw.get("results") {
        Some(JsonValue::Array(a)) => a,
        _ => {
            return Err(AppError::GeApi(String::from_str("Item search response did not contain results")));
        },
    };
    let n = arr.len();
    let mut items: Vec<ItemDetail> = Vec::new();
    let ghost mut opts: Seq<Option<ItemDetail>> = Seq::empty();
    let mut i: usize = 0;
    while i < n
        invariant
            n == arr@.len(),
            i <= n,
            forall|t: &str, m: u64| call_requires(*scale, (t, m)),
            opts.len() == i,
            forall|k: int| 0 <= k < i ==> search_result_ok(#[trigger] arr@[k], *scale, opts[k]),
            items@ == present(opts),
        decreases n - i,
    {
        let d = parse_search_result(&arr[i], scale);
        let ghost before = opts;
        proof {
            opts = opts.push(d);
            assert(opts.drop_last() =~= before);
        }
        match d {
            Some(item) => items.push(item),
            None => {},
        }
        i = i + 1;
    }
    Ok(items)
}

/// The message of a catalogue lookup for an unknown item.
pub open spec fn not_found_message(item_id: u32) -> Seq<char> {
    "Item "@ + dec(item_id as nat) + " was not found in the Grand Exchange catalogue"@
}

/// Reads a catalogue detail response for `item_id`: an error when it has no
/// `item`, or when the item has no text `name`.
pub fn item_detail<F: Fn(&str, u64) -> Option<u64>>(raw: &JsonValue, item_id: u32, scale: &F) -> (r: Result<ItemDetail, AppError>)
    requires
        forall|t: &str, m: u64| call_requires(*scale, (t, m)),
    ensures
        json_get(*raw, "item"@) is None ==> (r matches Err(AppError::GeApi(m)) && m@ == not_found_message(item_id)),
        json_get(*raw, "item"@) matches Some(entry) ==> {
            let name = match json_get(entry, "name"@) {
                Some(x) => json_as_text(x),
                None => None,
            };
            &&& name is None ==> (r matches Err(AppError::GeApi(m)) && m@ == "Item catalogue response was missing a name"@)
            &&& name matches Some(nm) ==> {
                &&& r matches Ok(d)
                &&& d.id == item_id
                &&& d.name@ == nm
                &&& current_price_ok(entry, *scale, d.current_price)
                &&& d.members == members_flag(json_get(entry, "members"@))
            }
        },
{
    let entry = match raw.get("item") {
        Some(e) => e,
        None => {
            let mut m = String::from_str("Item ");
            push_decimal(&mut m, item_id as u64);
            m.append(" was not found in the Grand Exchange catalogue");
            return Err(AppError::GeApi(m));
        },
    };
    let name = match entry.get("name") {
        Some(x) => match x.as_text() {
            Some(t) => t.clone(),
            None => {
                return Err(AppError::GeApi(String::from_str("Item catalogue response was missing a name")));
            },
        },
        None => {
            return Err(AppError::GeApi(String::from_str("Item catalogue response was missing a name")));
        },
    };
    let current_price = current_price_of(entry, scale);
    let members = members_of(entry);
    Ok(ItemDetail { id: item_id, name, current_price, members })
}

} // verus!
