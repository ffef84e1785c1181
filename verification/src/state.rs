//! The persisted state of the sale: item payloads, the economic
//! configuration and the attribute pool.

use crate::errors::ContractError;
use crate::ledger::PurchaseLedger;
use crate::msg::Expiration;
use vstd::prelude::*;

verus! {

/// One named attribute of an item.
#[derive(Clone, PartialEq, Debug, Default)]
pub struct Trait {
    pub display_type: Option<String>,
    pub trait_type: String,
    pub value: String,
}

/// The payload that an item carries in the token registry.
#[derive(Clone, PartialEq, Debug, Default)]
pub struct Metadata {
    pub image: Option<String>,
    pub image_data: Option<String>,
    pub external_url: Option<String>,
    pub description: Option<String>,
    pub name: Option<String>,
    pub attributes: Option<Vec<Trait>>,
    pub background_color: Option<String>,
    pub animation_url: Option<String>,
    pub youtube_url: Option<String>,
}

/// The payload of an item as the registry stores it: present or not.
pub type Extension = Option<Metadata>;

/// The economic configuration of the sale.
#[derive(Clone, Debug, PartialEq)]
pub struct Config {
    /// The payment medium that purchases must arrive in.
    pub payment_token: String,
    /// The least amount that one item costs.
    pub price: u128,
    /// Where collected payments are forwarded to.
    pub treasury: String,
    /// How many purchases one address may make.
    pub limit_per_address: u64,
    /// Whether only allow-listed addresses may buy.
    pub whitelist: bool,
    /// The identity that maintains the allow-list.
    pub whitelist_admin: String,
    /// The administrator.
    pub admin: String,
}

/// The attribute pool: the values that each category offers, the declared
/// supply and the number of items issued so far.
#[derive(Clone, Debug, PartialEq)]
pub struct Loot {
    pub names: Vec<String>,
    pub origins: Vec<String>,
    pub professions: Vec<String>,
    pub obsessions: Vec<String>,
    pub talents: Vec<String>,
    pub skills: Vec<String>,
    pub alignments: Vec<String>,
    /// The declared total supply.
    pub num_items: u64,
    /// The number of items issued so far; the last sequence number given out.
    pub curr_num_items: u64,
}

/// A permission to move a token.
#[derive(Clone, Debug, PartialEq)]
pub struct Approval {
    /// Who may move the token.
    pub spender: String,
    pub expires: Expiration,
}

/// The record that the token registry keeps of one token.
#[derive(Clone, Debug, PartialEq)]
pub struct TokenInfo {
    pub owner: String,
    pub approvals: Vec<Approval>,
    pub token_uri: Option<String>,
    /// The payload of the item.
    pub extension: Extension,
}

/// The name and the version under which the sale is stored.
#[derive(Clone, Debug, PartialEq)]
pub struct ContractVersion {
    pub contract: String,
    pub version: String,
}

/// The state that the sale's calls work on.
#[derive(Debug)]
pub struct Sale {
    pub config: Config,
    pub loot: Loot,
    pub ledger: PurchaseLedger,
}

/// The state of a sale as its rules see it: the configuration, the pool,
/// what each buyer was issued, and the allow-listed identities in
/// ascending order.
pub struct SaleState {
    pub config: Config,
    pub loot: Loot,
    pub mints: Map<Seq<char>, Seq<u64>>,
    pub listed: Seq<Seq<char>>,
}

impl View for Sale {
    type V = SaleState;

    open spec fn view(&self) -> SaleState {
        SaleState {
            config: self.config,
            loot: self.loot,
            mints: self.ledger.mints@,
            listed: self.ledger.allow_list@,
        }
    }
}

impl Config {
    /// Whether `who` is the administrator.
    pub open spec fn is_admin(self, who: Seq<char>) -> bool {
        who == self.admin@
    }

    /// Whether `who` may maintain the allow-list: the administrator and the
    /// allow-list administrator both may.
    pub open spec fn manages_whitelist(self, who: Seq<char>) -> bool {
        who == self.admin@ || who == self.whitelist_admin@
    }
}

impl Loot {
    /// Whether some category offers no value at all.
    pub open spec fn has_empty_category(self) -> bool {
        ||| self.names@.len() == 0
        ||| self.origins@.len() == 0
        ||| self.professions@.len() == 0
        ||| self.obsessions@.len() == 0
        ||| self.talents@.len() == 0
        ||| self.skills@.len() == 0
        ||| self.alignments@.len() == 0
    }

    /// Whether the declared supply still has an item left.
    pub open spec fn has_supply(self) -> bool {
        self.curr_num_items < self.num_items
    }

    /// The pool after one more item has been issued: the counter stepped by
    /// one, everything else as it was.
    pub open spec fn issued(self) -> Loot {
        Loot { curr_num_items: (self.curr_num_items + 1) as u64, ..self }
    }

    /// Reserves the next sequence number within the declared supply.
    ///
    /// Succeeds exactly when fewer items than the declared supply have been
    /// issued; the counter then advances by one and its new value is the
    /// sequence number. Otherwise the pool is left as it was.
    pub fn try_reserve_slot(&mut self) -> (slot: Result<u64, ContractError>)
        ensures
            old(self).has_supply() ==> slot == Ok::<u64, ContractError>(
                (old(self).curr_num_items + 1) as u64,
            ) && *final(self) == old(self).issued(),
            !old(self).has_supply() ==> slot == Err::<u64, ContractError>(
                ContractError::MaxTokensMinted {  },
            ) && *final(self) == *old(self),
    {
        if self.curr_num_items < self.num_items {
            self.curr_num_items = self.curr_num_items + 1;
            Ok(self.curr_num_items)
        } else {
            Err(ContractError::MaxTokensMinted {  })
        }
    }
}

} // verus!
