//! The persisted investment record and the portfolio that holds them.
use vstd::prelude::*;

use crate::clock::UtcInstant;

verus! {

/// Whether an investment is still held.
#[derive(Debug, Clone, Copy, PartialEq, Eq, Structural)]
pub enum InvestmentStatus {
    Active,
    Sold,
}

/// Which game an investment's item ID and price belong to. RS3 and OSRS
/// have separate item ID spaces and separate Grand Exchange price data.
#[derive(Debug, Clone, Copy, PartialEq, Eq, Structural, Hash)]
pub enum Game {
    Rs3,
    Osrs,
}

impl Game {
    /// The path segment the exchange API uses for this game.
    pub open spec fn api_key_spec(self) -> Seq<char> {
        match self {
            Game::Rs3 => seq!['r', 's'],
            Game::Osrs => seq!['o', 's', 'r', 's'],
        }
    }

    /// The short label shown for this game.
    pub open spec fn label_spec(self) -> Seq<char> {
        match self {
            Game::Rs3 => seq!['R', 'S', '3'],
            Game::Osrs => seq!['O', 'S', 'R', 'S'],
        }
    }

    /// The path segment of the exchange API, e.g.
    /// `https://api.weirdgloop.org/exchange/history/{key}/latest`.
    pub fn api_key(self) -> (r: &'static str)
        ensures
            r@ == self.api_key_spec(),
    {
        match self {
            Game::Rs3 => {
                let s = "rs";
                proof {
                    reveal_strlit("rs");
                }
                s
            },
            Game::Osrs => {
                let s = "osrs";
                proof {
                    reveal_strlit("osrs");
                }
                s
            },
        }
    }

    /// The label shown next to an investment.
    pub fn label(self) -> (r: &'static str)
        ensures
            r@ == self.label_spec(),
    {
        match self {
            Game::Rs3 => {
                let s = "RS3";
                proof {
                    reveal_strlit("RS3");
                }
                s
            },
            Game::Osrs => {
                let s = "OSRS";
                proof {
                    reveal_strlit("OSRS");
                }
                s
            },
        }
    }
}

impl Default for Game {
    /// RS3, so that records saved before the game was recorded load as RS3.
    fn default() -> (r: Game)
        ensures
            r == Game::Rs3,
    {
        Game::Rs3
    }
}

/// A single tracked Grand Exchange investment. Raw, persisted fields only;
/// derived numbers live in `calculations`.
#[derive(Debug, Clone)]
pub struct Investment {
    pub id: String,
    pub item_name: String,
    pub item_id: Option<u32>,
    pub game: Game,
    pub purchase_date: UtcInstant,
    pub purchase_price: u64,
    pub quantity: u64,
    pub notes: Option<String>,
    pub status: InvestmentStatus,
    pub current_price: Option<u64>,
    pub previous_price: Option<u64>,
    pub last_updated: Option<UtcInstant>,
    pub sold_price: Option<u64>,
    pub sold_date: Option<UtcInstant>,
}

impl Investment {
    /// Every instant the record holds is a valid one.
    pub open spec fn wf(self) -> bool {
        &&& self.purchase_date.wf()
        &&& (self.last_updated matches Some(t) ==> t.wf())
        &&& (self.sold_date matches Some(t) ==> t.wf())
    }
}

/// Every record of a list is well formed.
pub open spec fn all_wf(invs: Seq<Investment>) -> bool {
    forall|i: int| 0 <= i < invs.len() ==> (#[trigger] invs[i]).wf()
}

/// The user's investments, active and sold.
#[derive(Debug, Clone)]
pub struct Portfolio {
    pub investments: Vec<Investment>,
}

impl Default for Portfolio {
    fn default() -> (r: Portfolio)
        ensures
            r.investments@.len() == 0,
    {
        Portfolio { investments: Vec::new() }
    }
}

/// A fresh random record ID (`Uuid::new_v4().to_string()`). Its value is
/// random; what holds of every outcome is the hyphenated form that
/// `Uuid`'s `Display` writes: 36 characters with `-` at positions 8, 13, 18
/// and 23. That two calls give distinct IDs is not stated.
#[verifier::external_body]
pub(crate) fn new_record_id() -> (r: String)
    ensures
        r@.len() == 36,
        r@[8] == '-' && r@[13] == '-' && r@[18] == '-' && r@[23] == '-',
{
    uuid::Uuid::new_v4().to_string()
}

} // verus!
