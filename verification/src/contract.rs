//! The calls of the sale: purchases, the administrator's changes, the
//! listing of the allow-list, set-up and migration.

use crate::address::{addresses_of, ascending};
use crate::errors::ContractError;
use crate::ledger::{history, listed_with_all, page_of, with_mint, PurchaseLedger};
use crate::msg::{
    AllWhitelisted, Cw20ReceiveMsg, Cw721ExecuteMsg, Cw721InstantiateMsg, Cw721QueryMsg,
    ExecuteMsg, InstantiateMsg, Instruction, MigrateMsg, MintMsg, QueryMsg, QueryResponse,
    ReceiveMsg, Response, Transfer,
};
use crate::selector::{
    bundle_of, decimal_chars, decimal_string, purchase_seed, seed_bytes, seed_digest,
    select_traits, TraitBundle,
};
use crate::state::{
    Config, ContractVersion, Extension, Loot, Metadata, Sale, SaleState, TokenInfo, Trait,
};
use vstd::prelude::*;

verus! {

/// Why the policy refuses a purchase, if it does. The administrator is
/// never refused. For every other buyer, in this order: the payment must be
/// in the configured medium and reach the price, the buyer must have quota
/// left, and, while the allow-list is enforced, must be on it.
pub open spec fn authorization_refusal(
    config: Config,
    mints: Map<Seq<char>, Seq<u64>>,
    listed: Seq<Seq<char>>,
    token_sent: Seq<char>,
    amount_sent: u128,
    buyer: Seq<char>,
) -> Option<ContractError> {
    if config.is_admin(buyer) {
        None
    } else if token_sent != config.payment_token@ {
        Some(ContractError::Unauthorized {  })
    } else if amount_sent < config.price {
        Some(ContractError::Unauthorized {  })
    } else if history(mints, buyer).len() >= config.limit_per_address {
        Some(ContractError::MaxMintsPerAddress {  })
    } else if config.whitelist && !listed.contains(buyer) {
        Some(ContractError::NotWhitelisted {  })
    } else {
        None
    }
}

/// Decides whether the policy lets `buyer` purchase with this payment.
/// Nothing is recorded.
pub fn authorize(
    buyer: &String,
    token_sent: &String,
    amount_sent: u128,
    config: &Config,
    ledger: &PurchaseLedger,
) -> (verdict: Result<(), ContractError>)
    ensures
        verdict == match authorization_refusal(
            *config,
            ledger.mints@,
            ledger.allow_list@,
            token_sent@,
            amount_sent,
            buyer@,
        ) {
            Some(refusal) => Err::<(), ContractError>(refusal),
            None => Ok::<(), ContractError>(()),
        },
{
    if *buyer == config.admin {
        return Ok(());
    }
    if config.payment_token != *token_sent {
        return Err(ContractError::Unauthorized {  });
    }
    if amount_sent < config.price {
        return Err(ContractError::Unauthorized {  });
    }
    if ledger.mints.count(buyer.as_str()) as u64 >= config.limit_per_address {
        return Err(ContractError::MaxMintsPerAddress {  });
    }
    if config.whitelist && !ledger.allow_list.contains(buyer.as_str()) {
        return Err(ContractError::NotWhitelisted {  });
    }
    Ok(())
}

impl SaleState {
    /// Why the policy refuses a purchase in this state, if it does.
    pub open spec fn authorization_refusal(
        self,
        token_sent: Seq<char>,
        amount_sent: u128,
        buyer: Seq<char>,
    ) -> Option<ContractError> {
        authorization_refusal(
            self.config,
            self.mints,
            self.listed,
            token_sent,
            amount_sent,
            buyer,
        )
    }

    /// Why a purchase is refused in this state, if it is: by the policy;
    /// or, for a buyer other than the administrator, because the declared
    /// supply is used up; or because the pool cannot serve an allocation, a
    /// category being empty or the counter of issued items at its end.
    pub open spec fn purchase_refusal(
        self,
        token_sent: Seq<char>,
        amount_sent: u128,
        buyer: Seq<char>,
    ) -> Option<ContractError> {
        match self.authorization_refusal(token_sent, amount_sent, buyer) {
            Some(refusal) => Some(refusal),
            None => if !self.config.is_admin(buyer) && !self.loot.has_supply() {
                Some(ContractError::MaxTokensMinted {  })
            } else if self.loot.has_empty_category() || self.loot.curr_num_items == u64::MAX {
                Some(ContractError::Failed {  })
            } else {
                None
            },
        }
    }

    /// The sequence number that the next item gets.
    pub open spec fn next_token(self) -> u64 {
        (self.loot.curr_num_items + 1) as u64
    }

    /// The state after `buyer` was issued the next item: the counter of
    /// issued items stepped by one, and its new value appended to the
    /// buyer's history.
    pub open spec fn after_purchase(self, buyer: Seq<char>) -> SaleState {
        SaleState {
            loot: self.loot.issued(),
            mints: with_mint(self.mints, buyer, self.next_token()),
            ..self
        }
    }

    /// The state with every one of `addresses` on the allow-list.
    pub open spec fn after_listing(self, addresses: Seq<Seq<char>>) -> SaleState {
        SaleState { listed: listed_with_all(self.listed, addresses), ..self }
    }

    /// The state under another configuration.
    pub open spec fn with_config(self, config: Config) -> SaleState {
        SaleState { config, ..self }
    }
}

/// Whether `t` is the attribute of this kind with this value, and no
/// display hint.
pub open spec fn is_trait(t: Trait, kind: Seq<char>, value: String) -> bool {
    &&& t.display_type is None
    &&& t.trait_type@ == kind
    &&& t.value == value
}

/// Whether `payload` is the character sheet of a bundle: the selected name,
/// the fixed description, the six other selections as attributes in their
/// order, and nothing else.
pub open spec fn is_character_sheet(payload: Metadata, bundle: TraitBundle) -> bool {
    &&& payload.image is None
    &&& payload.image_data is None
    &&& payload.external_url is None
    &&& payload.background_color is None
    &&& payload.animation_url is None
    &&& payload.youtube_url is None
    &&& payload.name == Some(bundle.name)
    &&& payload.description matches Some(text)
    &&& text@ == "Character Sheet Loot for the Lootopia Metaverse"@
    &&& payload.attributes matches Some(traits)
    &&& traits@.len() == 6
    &&& is_trait(traits@[0], "Origin"@, bundle.origin)
    &&& is_trait(traits@[1], "Profession"@, bundle.profession)
    &&& is_trait(traits@[2], "Obsession"@, bundle.obsession)
    &&& is_trait(traits@[3], "Talent"@, bundle.talent)
    &&& is_trait(traits@[4], "Skill"@, bundle.skill)
    &&& is_trait(traits@[5], "Alignment"@, bundle.alignment)
}

/// Builds the character sheet of a bundle.
pub fn character_sheet(bundle: TraitBundle) -> (payload: Metadata)
    ensures
        is_character_sheet(payload, bundle),
{
    let mut traits: Vec<Trait> = Vec::new();
    traits.push(
        Trait { display_type: None, trait_type: "Origin".to_owned(), value: bundle.origin },
    );
    traits.push(
        Trait {
            display_type: None,
            trait_type: "Profession".to_owned(),
            value: bundle.profession,
        },
    );
    traits.push(
        Trait { display_type: None, trait_type: "Obsession".to_owned(), value: bundle.obsession },
    );
    traits.push(
        Trait { display_type: None, trait_type: "Talent".to_owned(), value: bundle.talent },
    );
    traits.push(Trait { display_type: None, trait_type: "Skill".to_owned(), value: bundle.skill });
    traits.push(
        Trait { display_type: None, trait_type: "Alignment".to_owned(), value: bundle.alignment },
    );
    Metadata {
        name: Some(bundle.name),
        image: None,
        animation_url: None,
        description: Some("Character Sheet Loot for the Lootopia Metaverse".to_owned()),
        background_color: None,
        youtube_url: None,
        image_data: None,
        external_url: None,
        attributes: Some(traits),
    }
}

/// Whether `mint` asks for the item with sequence number `token`, owned by
/// `buyer`, with the character sheet that the buyer and the height select
/// from the pool.
pub open spec fn is_purchase_mint(
    mint: MintMsg,
    loot: Loot,
    buyer: Seq<char>,
    height: u64,
    token: u64,
) -> bool {
    &&& mint.owner@ == buyer
    &&& mint.token_id@ == decimal_chars(token as nat)
    &&& mint.token_uri matches Some(uri)
    &&& uri@ == decimal_chars(token as nat)
    &&& mint.extension matches Some(payload)
    &&& is_character_sheet(payload, bundle_of(loot, seed_digest(purchase_seed(buyer, height))))
}

/// Whether `transfer` forwards `amount` of the configured payment medium to
/// the treasury.
pub open spec fn is_treasury_transfer(transfer: Transfer, config: Config, amount: u128) -> bool {
    &&& transfer.token@ == config.payment_token@
    &&& transfer.amount == amount
    &&& transfer.recipient@ == config.treasury@
}

/// Whether `response` is that of a purchase: nothing reported, and two
/// effects, first the mint of the item, then the forwarding of the payment.
pub open spec fn is_purchase_response(
    response: Response,
    config: Config,
    loot: Loot,
    buyer: Seq<char>,
    height: u64,
    amount_sent: u128,
    token: u64,
) -> bool {
    &&& response.attributes@.len() == 0
    &&& response.messages@.len() == 2
    &&& response.messages@[0] matches Instruction::Mint(mint)
    &&& is_purchase_mint(mint, loot, buyer, height, token)
    &&& response.messages@[1] matches Instruction::Transfer(transfer)
    &&& is_treasury_transfer(transfer, config, amount_sent)
}

/// What a purchase attempt comes to: refused, it changes nothing; let
/// through, it leaves the state after the purchase and the response of a
/// purchase.
pub open spec fn purchase_outcome(
    before: SaleState,
    after: SaleState,
    height: u64,
    token_sent: Seq<char>,
    amount_sent: u128,
    buyer: Seq<char>,
    result: Result<Response, ContractError>,
) -> bool {
    match before.purchase_refusal(token_sent, amount_sent, buyer) {
        Some(refusal) => result == Err::<Response, ContractError>(refusal) && after == before,
        None => {
            &&& after == before.after_purchase(buyer)
            &&& result matches Ok(response)
            &&& is_purchase_response(
                response,
                before.config,
                before.loot,
                buyer,
                height,
                amount_sent,
                before.next_token(),
            )
        },
    }
}

/// One purchase attempt of `buyer`, who sent `amount_sent` of `token_sent`,
/// at block height `height`.
///
/// Every check comes before every change, so a refused purchase changes
/// nothing: the quota is charged on success only. A purchase that is let
/// through advances the counter of issued items by one, its new value being
/// the sequence number of the item; records the number in the buyer's
/// history; and returns the two effects to perform. What `mint_msg` held
/// does not matter: every field of the mint is set here.
///
/// A buyer other than the administrator is served while fewer items than
/// the declared supply have been issued. The administrator is let through
/// whatever the payment, the supply, the quota and the allow-list say, but
/// is served by a usable pool only.
pub fn execute_buy(
    sale: &mut Sale,
    height: u64,
    token_sent: String,
    amount_sent: u128,
    buyer: String,
    mint_msg: MintMsg,
) -> (result: Result<Response, ContractError>)
    ensures
        purchase_outcome(
            old(sale)@,
            final(sale)@,
            height,
            token_sent@,
            amount_sent,
            buyer@,
            result,
        ),
{
    let is_admin = buyer == sale.config.admin;
    match authorize(&buyer, &token_sent, amount_sent, &sale.config, &sale.ledger) {
        Err(refusal) => {
            return Err(refusal);
        },
        Ok(()) => {},
    }
    if !is_admin && sale.loot.curr_num_items >= sale.loot.num_items {
        return Err(ContractError::MaxTokensMinted {  });
    }
    let seed = seed_bytes(&buyer, height);
    let bundle = match select_traits(&seed, &sale.loot) {
        Err(refusal) => {
            return Err(refusal);
        },
        Ok(bundle) => bundle,
    };
    if sale.loot.curr_num_items == u64::MAX {
        return Err(ContractError::Failed {  });
    }
    let token = if is_admin {
        // The administrator is served past the declared supply too.
        sale.loot.curr_num_items = sale.loot.curr_num_items + 1;
        sale.loot.curr_num_items
    } else {
        match sale.loot.try_reserve_slot() {
            Err(refusal) => {
                return Err(refusal);
            },
            Ok(token) => token,
        }
    };
    sale.ledger.record_mint(&buyer, token);

    let mut mint_msg = mint_msg;
    mint_msg.owner = buyer;
    mint_msg.token_id = decimal_string(token);
    mint_msg.token_uri = Some(decimal_string(token));
    mint_msg.extension = Some(character_sheet(bundle));
    let payment = Transfer {
        token: sale.config.payment_token.clone(),
        amount: amount_sent,
        recipient: sale.config.treasury.clone(),
    };
    let response = Response::new().add_message(Instruction::Mint(mint_msg)).add_message(
        Instruction::Transfer(payment),
    );
    Ok(response)
}

/// The response that reports nothing and leaves one effect to perform.
pub open spec fn is_single_effect(response: Response, effect: Instruction) -> bool {
    response.attributes@.len() == 0 && response.messages@ == seq![effect]
}

/// What asking for a withdrawal comes to: refused for everybody but the
/// administrator; for the administrator the one effect of forwarding
/// `amount` of the payment medium to the treasury.
pub open spec fn withdrawal_outcome(
    config: Config,
    sender: Seq<char>,
    amount: u128,
    result: Result<Response, ContractError>,
) -> bool {
    if !config.is_admin(sender) {
        result == Err::<Response, ContractError>(ContractError::Unauthorized {  })
    } else {
        &&& result matches Ok(response)
        &&& response.attributes@.len() == 0
        &&& response.messages@.len() == 1
        &&& response.messages@[0] matches Instruction::Transfer(transfer)
        &&& is_treasury_transfer(transfer, config, amount)
    }
}

/// Forwards `amount` of the collected payments to the treasury. Only the
/// administrator may ask for it; what the sale holds is not looked at.
pub fn withdraw_sales(sale: &Sale, sender: &String, amount: u128) -> (result: Result<
    Response,
    ContractError,
>)
    ensures
        withdrawal_outcome(sale.config, sender@, amount, result),
{
    if *sender != sale.config.admin {
        return Err(ContractError::Unauthorized {  });
    }
    let to_withdraw = Transfer {
        token: sale.config.payment_token.clone(),
        amount,
        recipient: sale.config.treasury.clone(),
    };
    Ok(Response::new().add_message(Instruction::Transfer(to_withdraw)))
}

/// What a change of the configuration comes to: refused, with nothing
/// changed, where the sender is not permitted; else the state under the
/// changed configuration, and a response that reports nothing.
pub open spec fn config_change_outcome(
    before: SaleState,
    after: SaleState,
    permitted: bool,
    changed: Config,
    result: Result<Response, ContractError>,
) -> bool {
    if !permitted {
        result == Err::<Response, ContractError>(ContractError::Unauthorized {  }) && after
            == before
    } else {
        &&& after == before.with_config(changed)
        &&& result matches Ok(response)
        &&& response.is_empty()
    }
}

/// Makes `admin` the administrator. Only the administrator may.
pub fn set_admin(sale: &mut Sale, sender: &String, admin: String) -> (result: Result<
    Response,
    ContractError,
>)
    ensures
        config_change_outcome(
            old(sale)@,
            final(sale)@,
            old(sale).config.is_admin(sender@),
            Config { admin, ..old(sale).config },
            result,
        ),
{
    if *sender != sale.config.admin {
        return Err(ContractError::Unauthorized {  });
    }
    sale.config.admin = admin;
    Ok(Response::new())
}

/// Makes `whitelist_admin` the allow-list administrator. Only the
/// administrator may.
pub fn set_whitelist_admin(sale: &mut Sale, sender: &String, whitelist_admin: String) -> (result:
    Result<Response, ContractError>)
    ensures
        config_change_outcome(
            old(sale)@,
            final(sale)@,
            old(sale).config.is_admin(sender@),
            Config { whitelist_admin, ..old(sale).config },
            result,
        ),
{
    if *sender != sale.config.admin {
        return Err(ContractError::Unauthorized {  });
    }
    sale.config.whitelist_admin = whitelist_admin;
    Ok(Response::new())
}

/// Switches the enforcement of the allow-list on or off. The administrator
/// may, and so may the allow-list administrator; nobody else.
pub fn toggle_whitelist(sale: &mut Sale, sender: &String, whitelist: bool) -> (result: Result<
    Response,
    ContractError,
>)
    ensures
        config_change_outcome(
            old(sale)@,
            final(sale)@,
            old(sale).config.manages_whitelist(sender@),
            Config { whitelist, ..old(sale).config },
            result,
        ),
{
    if *sender != sale.config.whitelist_admin && *sender != sale.config.admin {
        return Err(ContractError::Unauthorized {  });
    }
    sale.config.whitelist = whitelist;
    Ok(Response::new())
}

/// What listing addresses comes to: refused, with nothing changed, for a
/// sender that does not manage the allow-list; else the state with every
/// address listed, and a response that reports nothing.
pub open spec fn listing_outcome(
    before: SaleState,
    after: SaleState,
    sender: Seq<char>,
    addresses: Seq<Seq<char>>,
    result: Result<Response, ContractError>,
) -> bool {
    if !before.config.manages_whitelist(sender) {
        result == Err::<Response, ContractError>(ContractError::Unauthorized {  }) && after
            == before
    } else {
        &&& after == before.after_listing(addresses)
        &&& result matches Ok(response)
        &&& response.is_empty()
    }
}

/// Puts every one of `addresses` on the allow-list. The administrator may,
/// and so may the allow-list administrator; nobody else. An address that is
/// listed already, or that is named twice, is listed once.
pub fn add_whitelist_addresses(sale: &mut Sale, sender: &String, addresses: Vec<String>) -> (result:
    Result<Response, ContractError>)
    ensures
        listing_outcome(old(sale)@, final(sale)@, sender@, addresses_of(addresses@), result),
{
    if *sender != sale.config.whitelist_admin && *sender != sale.config.admin {
        return Err(ContractError::Unauthorized {  });
    }
    let ghost named = addresses_of(addresses@);
    let mut next: usize = 0;
    while next < addresses.len()
        invariant
            next <= addresses.len(),
            named == addresses_of(addresses@),
            sale@ == old(sale)@.after_listing(named.take(next as int)),
        decreases addresses.len() - next,
    {
        sale.ledger.allow(addresses[next].clone());
        proof {
            assert(named.take(next + 1).drop_last() =~= named.take(next as int));
        }
        next = next + 1;
    }
    proof {
        assert(named.take(next as int) =~= named);
    }
    Ok(Response::new())
}

/// The record of an item with its payload replaced: the new payload whole,
/// nothing of the old one, and everything else as it was.
pub open spec fn with_payload(token: TokenInfo, extension: Extension) -> TokenInfo {
    TokenInfo { extension, ..token }
}

/// What replacing the payload of an item comes to: refused for everybody
/// but the administrator; `TokenNotFound` where the registry holds no such
/// item; otherwise the response reports the update and leaves one effect,
/// to store the item's record with the new payload.
pub open spec fn metadata_outcome(
    config: Config,
    sender: Seq<char>,
    token: Option<TokenInfo>,
    token_id: String,
    extension: Extension,
    result: Result<Response, ContractError>,
) -> bool {
    if !config.is_admin(sender) {
        result == Err::<Response, ContractError>(ContractError::Unauthorized {  })
    } else {
        match token {
            None => result == Err::<Response, ContractError>(ContractError::TokenNotFound {  }),
            Some(info) => {
                &&& result matches Ok(response)
                &&& response.attributes@.len() == 2
                &&& response.reports(0, "action"@, "update"@)
                &&& response.reports(1, "token_id"@, token_id@)
                &&& response.messages@ == seq![
                    Instruction::SaveToken { token_id, token: with_payload(info, extension) },
                ]
            },
        }
    }
}

/// Replaces the payload of the item `token_id`, whose record in the token
/// registry is `token`: `None` where the registry holds no such item.
pub fn execute_update_all_metadata(
    sale: &Sale,
    sender: &String,
    token: Option<TokenInfo>,
    token_id: String,
    extension: Extension,
) -> (result: Result<Response, ContractError>)
    ensures
        metadata_outcome(sale.config, sender@, token, token_id, extension, result),
{
    if *sender != sale.config.admin {
        return Err(ContractError::Unauthorized {  });
    }
    let updated = match token {
        Some(mut token_info) => {
            token_info.extension = extension;
            token_info
        },
        None => {
            return Err(ContractError::TokenNotFound {  });
        },
    };
    let response = Response::new().add_attribute("action", "update".to_owned()).add_attribute(
        "token_id",
        token_id.clone(),
    );
    let response = response.add_message(Instruction::SaveToken { token_id, token: updated });
    proof {
        assert(response.messages@ =~= seq![Instruction::SaveToken { token_id, token: updated }]);
    }
    Ok(response)
}

/// The size of a page for a requested limit: ten where none is given, and
/// never more than thirty.
pub open spec fn page_limit(limit: Option<u32>) -> nat {
    match limit {
        None => 10,
        Some(n) => if n < 30 {
            n as nat
        } else {
            30
        },
    }
}

/// The view of an optional identity.
pub open spec fn start_of(start_after: Option<String>) -> Option<Seq<char>> {
    match start_after {
        Some(s) => Some(s@),
        None => None,
    }
}

/// Lists the allow-listed identities in ascending order, beginning
/// strictly after `start_after`, one page at a time.
pub fn try_whitelisted(sale: &Sale, start_after: Option<String>, limit: Option<u32>) -> (page:
    AllWhitelisted)
    ensures
        ascending(sale@.listed),
        addresses_of(page.accounts@) == page_of(
            sale@.listed,
            start_of(start_after),
            page_limit(limit),
        ),
{
    let limit: u32 = match limit {
        None => 10,
        Some(n) => if n < 30 {
            n
        } else {
            30
        },
    };
    AllWhitelisted { accounts: sale.ledger.allow_list.page(&start_after, limit as usize) }
}

/// Answers a question: the one about the allow-list here, every other by
/// naming the question to put to the token registry.
pub fn query(sale: &Sale, msg: QueryMsg) -> (answer: QueryResponse)
    ensures
        match msg {
            QueryMsg::Whitelisted { start_after, limit } => {
                &&& answer matches QueryResponse::Whitelisted(page)
                &&& addresses_of(page.accounts@) == page_of(
                    sale@.listed,
                    start_of(start_after),
                    page_limit(limit),
                )
            },
            _ => answer == QueryResponse::Registry(msg.registry_query()),
        },
{
    match msg {
        QueryMsg::Whitelisted { start_after, limit } => QueryResponse::Whitelisted(
            try_whitelisted(sale, start_after, limit),
        ),
        _ => QueryResponse::Registry(Cw721QueryMsg::from_query(msg)),
    }
}

/// What a migration comes to: the stored version replaced and the stored
/// name kept; a configuration that is given put in place of the stored one,
/// whole; and a response that reports the version that was left behind.
pub open spec fn migration_outcome(
    before: Config,
    after: Config,
    stored_before: ContractVersion,
    stored_after: ContractVersion,
    version: String,
    new_config: Option<Config>,
    result: Result<Response, ContractError>,
) -> bool {
    &&& stored_after == (ContractVersion { contract: stored_before.contract, version })
    &&& after == match new_config {
        Some(given) => given,
        None => before,
    }
    &&& result matches Ok(response)
    &&& response.attributes@.len() == 2
    &&& response.reports(0, "method"@, "try_migrate"@)
    &&& response.reports(1, "version"@, stored_before.version@)
    &&& response.messages@.len() == 0
}

/// Moves the sale to version `version`; `stored` is the name and version
/// under which it is stored, `config` its configuration.
pub fn try_migrate(
    config: &mut Config,
    stored: &mut ContractVersion,
    version: String,
    new_config: Option<Config>,
) -> (result: Result<Response, ContractError>)
    ensures
        migration_outcome(
            *old(config),
            *final(config),
            *old(stored),
            *final(stored),
            version,
            new_config,
            result,
        ),
{
    let mut previous = version;
    std::mem::swap(&mut previous, &mut stored.version);
    match new_config {
        Some(given) => {
            *config = given;
        },
        None => {},
    }
    let response = Response::new().add_attribute("method", "try_migrate".to_owned()).add_attribute(
        "version",
        previous,
    );
    Ok(response)
}

/// Moves the sale to the version that `msg` names.
pub fn migrate(config: &mut Config, stored: &mut ContractVersion, msg: MigrateMsg<Config>) -> (result:
    Result<Response, ContractError>)
    ensures
        migration_outcome(
            *old(config),
            *final(config),
            *old(stored),
            *final(stored),
            msg.version,
            msg.config,
            result,
        ),
{
    try_migrate(config, stored, msg.version, msg.config)
}

/// The pool that a set-up message describes, with nothing issued yet.
pub open spec fn initial_loot(msg: InstantiateMsg) -> Loot {
    Loot {
        names: msg.names,
        origins: msg.origins,
        professions: msg.professions,
        obsessions: msg.obsessions,
        talents: msg.talents,
        skills: msg.skills,
        alignments: msg.alignments,
        num_items: msg.num_items,
        curr_num_items: 0,
    }
}

/// The configuration that a set-up message describes.
pub open spec fn initial_config(msg: InstantiateMsg) -> Config {
    Config {
        payment_token: msg.payment_token,
        price: msg.price,
        treasury: msg.treasury,
        limit_per_address: msg.limit_per_address,
        whitelist: msg.whitelist,
        whitelist_admin: msg.whitelist_admin,
        admin: msg.admin,
    }
}

/// The state of a sale that was just set up: nothing issued, nothing
/// bought, nobody allow-listed.
pub open spec fn initial_state(msg: InstantiateMsg) -> SaleState {
    SaleState {
        config: initial_config(msg),
        loot: initial_loot(msg),
        mints: Map::empty(),
        listed: Seq::empty(),
    }
}

/// Sets the sale up: the state that `msg` describes, and the message with
/// which the token registry is to be set up. The pool is taken as it is
/// given: one with an empty category serves no purchase.
pub fn instantiate(msg: InstantiateMsg) -> (start: (Sale, Cw721InstantiateMsg))
    ensures
        start.0@ == initial_state(msg),
        start.1 == (Cw721InstantiateMsg { name: msg.name, symbol: msg.symbol, minter: msg.minter }),
{
    let loot = Loot {
        names: msg.names,
        origins: msg.origins,
        professions: msg.professions,
        obsessions: msg.obsessions,
        talents: msg.talents,
        skills: msg.skills,
        alignments: msg.alignments,
        num_items: msg.num_items,
        curr_num_items: 0,
    };
    let config = Config {
        payment_token: msg.payment_token,
        price: msg.price,
        treasury: msg.treasury,
        limit_per_address: msg.limit_per_address,
        whitelist: msg.whitelist,
        whitelist_admin: msg.whitelist_admin,
        admin: msg.admin,
    };
    let registry = Cw721InstantiateMsg { name: msg.name, symbol: msg.symbol, minter: msg.minter };
    (Sale { config, loot, ledger: PurchaseLedger::new() }, registry)
}

/// Takes a payment: `sender` is the payment medium that reports it,
/// `cw20_msg` says who paid, how much, and what for. A payment buys one
/// item for the one who paid.
pub fn receive(sale: &mut Sale, height: u64, sender: String, cw20_msg: Cw20ReceiveMsg) -> (result:
    Result<Response, ContractError>)
    ensures
        purchase_outcome(
            old(sale)@,
            final(sale)@,
            height,
            sender@,
            cw20_msg.amount,
            cw20_msg.sender@,
            result,
        ),
{
    match cw20_msg.msg {
        ReceiveMsg::Buy { mint_msg } => execute_buy(
            sale,
            height,
            sender,
            cw20_msg.amount,
            cw20_msg.sender,
            mint_msg,
        ),
    }
}

/// What a call of the sale comes to, call by call. A call that the token
/// registry serves changes nothing here and leaves the one effect of
/// handing it on.
pub open spec fn execute_outcome(
    before: SaleState,
    after: SaleState,
    height: u64,
    sender: Seq<char>,
    token: Option<TokenInfo>,
    msg: ExecuteMsg,
    result: Result<Response, ContractError>,
) -> bool {
    match msg {
        ExecuteMsg::Receive(cw20_msg) => purchase_outcome(
            before,
            after,
            height,
            sender,
            cw20_msg.amount,
            cw20_msg.sender@,
            result,
        ),
        ExecuteMsg::WithdrawSales { amount } => after == before && withdrawal_outcome(
            before.config,
            sender,
            amount,
            result,
        ),
        ExecuteMsg::AddWhitelistAddresses { addresses } => listing_outcome(
            before,
            after,
            sender,
            addresses_of(addresses@),
            result,
        ),
        ExecuteMsg::ToggleWhitelist { whitelist } => config_change_outcome(
            before,
            after,
            before.config.manages_whitelist(sender),
            Config { whitelist, ..before.config },
            result,
        ),
        ExecuteMsg::SetWhitelistAdmin { whitelist_admin } => config_change_outcome(
            before,
            after,
            before.config.is_admin(sender),
            Config { whitelist_admin, ..before.config },
            result,
        ),
        ExecuteMsg::SetAdmin { admin } => config_change_outcome(
            before,
            after,
            before.config.is_admin(sender),
            Config { admin, ..before.config },
            result,
        ),
        ExecuteMsg::UpdateAllMetadata { token_id, extension } => after == before
            && metadata_outcome(before.config, sender, token, token_id, extension, result),
        _ => {
            &&& after == before
            &&& result matches Ok(response)
            &&& is_single_effect(response, Instruction::Registry(msg.registry_call()))
        },
    }
}

/// Serves one call of `sender` at block height `height`. `token` is the
/// token registry's record of the item that the call names, where it names
/// one and the registry holds it.
///
/// A direct mint is not among the calls that the sale takes.
pub fn execute(
    sale: &mut Sale,
    height: u64,
    sender: String,
    token: Option<TokenInfo>,
    msg: ExecuteMsg,
) -> (result: Result<Response, ContractError>)
    requires
        !(msg is Mint),
    ensures
        execute_outcome(old(sale)@, final(sale)@, height, sender@, token, msg, result),
{
    match msg {
        ExecuteMsg::Receive(msg) => receive(sale, height, sender, msg),
        ExecuteMsg::WithdrawSales { amount } => withdraw_sales(sale, &sender, amount),
        ExecuteMsg::AddWhitelistAddresses { addresses } => add_whitelist_addresses(
            sale,
            &sender,
            addresses,
        ),
        ExecuteMsg::ToggleWhitelist { whitelist } => toggle_whitelist(sale, &sender, whitelist),
        ExecuteMsg::SetWhitelistAdmin { whitelist_admin } => set_whitelist_admin(
            sale,
            &sender,
            whitelist_admin,
        ),
        ExecuteMsg::SetAdmin { admin } => set_admin(sale, &sender, admin),
        ExecuteMsg::UpdateAllMetadata { token_id, extension } => execute_update_all_metadata(
            sale,
            &sender,
            token,
            token_id,
            extension,
        ),
        _ => {
            let call = Instruction::Registry(Cw721ExecuteMsg::from_execute(msg));
            let response = Response::new().add_message(call);
            assert(response.messages@ =~= seq![call]);
            Ok(response)
        },
    }
}

} // verus!
