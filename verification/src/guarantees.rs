//! What holds of the sale whatever is bought, listed or changed.

use crate::address::{address_before, ascending};
use crate::contract::{initial_state, with_payload};
use crate::errors::ContractError;
use crate::ledger::{
    history, lemma_listed_after_is_suffix, lemma_listed_with, listed_after, listed_with_all,
    page_of,
};
use crate::msg::InstantiateMsg;
use crate::selector::{pick_index, purchase_seed, seed_digest, selection, TraitBundle};
use crate::state::{Config, Extension, Loot, SaleState, TokenInfo};
use vstd::prelude::*;

verus! {

/// One purchase attempt: who buys, and what was sent.
pub struct Attempt {
    pub buyer: Seq<char>,
    pub token_sent: Seq<char>,
    pub amount_sent: u128,
}

/// Whether `states` are the states that a sale goes through while the
/// purchases `attempts` succeed one after the other.
pub open spec fn is_run(states: Seq<SaleState>, attempts: Seq<Attempt>) -> bool {
    &&& states.len() == attempts.len() + 1
    &&& forall|i: int|
        0 <= i < attempts.len() ==> {
            &&& (#[trigger] states[i]).purchase_refusal(
                attempts[i].token_sent,
                attempts[i].amount_sent,
                attempts[i].buyer,
            ) is None
            &&& states[i + 1] == states[i].after_purchase(attempts[i].buyer)
        }
}

/// After a run of successful purchases the counter of issued items has
/// grown by their number, and the configuration and the declared supply
/// are what they were.
pub proof fn lemma_issued_count_after_run(states: Seq<SaleState>, attempts: Seq<Attempt>)
    requires
        is_run(states, attempts),
    ensures
        states.last().loot.curr_num_items == states[0].loot.curr_num_items + attempts.len(),
        states.last().loot.num_items == states[0].loot.num_items,
        states.last().config == states[0].config,
    decreases attempts.len(),
{
    if attempts.len() > 0 {
        let n = attempts.len() as int;
        assert(is_run(states.drop_last(), attempts.drop_last())) by {
            assert forall|i: int| 0 <= i < n - 1 implies {
                &&& (#[trigger] states.drop_last()[i]).purchase_refusal(
                    attempts.drop_last()[i].token_sent,
                    attempts.drop_last()[i].amount_sent,
                    attempts.drop_last()[i].buyer,
                ) is None
                &&& states.drop_last()[i + 1] == states.drop_last()[i].after_purchase(
                    attempts.drop_last()[i].buyer,
                )
            } by {
                assert(states[i].purchase_refusal(
                    attempts[i].token_sent,
                    attempts[i].amount_sent,
                    attempts[i].buyer,
                ) is None);
            }
        }
        lemma_issued_count_after_run(states.drop_last(), attempts.drop_last());
        assert(states[n - 1].purchase_refusal(
            attempts[n - 1].token_sent,
            attempts[n - 1].amount_sent,
            attempts[n - 1].buyer,
        ) is None);
    }
}

/// A successful purchase of a buyer other than the administrator keeps
/// the counter of issued items within the declared supply: it was below it
/// before, and is at most equal to it after.
pub proof fn lemma_purchase_within_supply(
    state: SaleState,
    token_sent: Seq<char>,
    amount_sent: u128,
    buyer: Seq<char>,
)
    requires
        !state.config.is_admin(buyer),
        state.purchase_refusal(token_sent, amount_sent, buyer) is None,
    ensures
        state.loot.curr_num_items < state.loot.num_items,
        state.after_purchase(buyer).loot.curr_num_items == state.loot.curr_num_items + 1,
        state.after_purchase(buyer).loot.curr_num_items <= state.after_purchase(
            buyer,
        ).loot.num_items,
{
}

/// While nobody but buyers other than the administrator purchases, the
/// counter of issued items never exceeds the declared supply.
pub proof fn lemma_supply_never_exceeded(states: Seq<SaleState>, attempts: Seq<Attempt>, at: int)
    requires
        is_run(states, attempts),
        states[0].loot.curr_num_items <= states[0].loot.num_items,
        forall|i: int|
            0 <= i < attempts.len() ==> !states[0].config.is_admin((#[trigger] attempts[i]).buyer),
        0 <= at < states.len(),
    ensures
        states[at].loot.curr_num_items <= states[at].loot.num_items,
{
    if at > 0 {
        let before = at - 1;
        assert(is_run(states.take(at), attempts.take(before))) by {
            assert forall|i: int| 0 <= i < before implies {
                &&& (#[trigger] states.take(at)[i]).purchase_refusal(
                    attempts.take(before)[i].token_sent,
                    attempts.take(before)[i].amount_sent,
                    attempts.take(before)[i].buyer,
                ) is None
                &&& states.take(at)[i + 1] == states.take(at)[i].after_purchase(
                    attempts.take(before)[i].buyer,
                )
            } by {
                assert(states[i].purchase_refusal(
                    attempts[i].token_sent,
                    attempts[i].amount_sent,
                    attempts[i].buyer,
                ) is None);
            }
        }
        lemma_issued_count_after_run(states.take(at), attempts.take(before));
        assert(states[before].purchase_refusal(
            attempts[before].token_sent,
            attempts[before].amount_sent,
            attempts[before].buyer,
        ) is None);
        lemma_purchase_within_supply(
            states[before],
            attempts[before].token_sent,
            attempts[before].amount_sent,
            attempts[before].buyer,
        );
    }
}

/// Whether every buyer other than the administrator holds at most as many
/// items as the quota allows.
pub open spec fn within_quota(state: SaleState) -> bool {
    forall|buyer: Seq<char>|
        !state.config.is_admin(buyer) ==> #[trigger] history(state.mints, buyer).len()
            <= state.config.limit_per_address
}

/// A successful purchase keeps every buyer other than the administrator
/// within the quota.
pub proof fn lemma_purchase_keeps_quota(
    state: SaleState,
    token_sent: Seq<char>,
    amount_sent: u128,
    buyer: Seq<char>,
)
    requires
        within_quota(state),
        state.purchase_refusal(token_sent, amount_sent, buyer) is None,
    ensures
        within_quota(state.after_purchase(buyer)),
{
    let after = state.after_purchase(buyer);
    assert forall|other: Seq<char>| !after.config.is_admin(other) implies #[trigger] history(
        after.mints,
        other,
    ).len() <= after.config.limit_per_address by {
        assert(history(state.mints, other).len() <= state.config.limit_per_address);
    }
}

/// A sale that was just set up is within the quota: nothing was bought.
pub proof fn lemma_initial_state_within_quota(msg: InstantiateMsg)
    ensures
        within_quota(initial_state(msg)),
{
}

/// A sale that is within the quota stays within it through every run of
/// successful purchases.
pub proof fn lemma_quota_never_exceeded(states: Seq<SaleState>, attempts: Seq<Attempt>, at: int)
    requires
        is_run(states, attempts),
        within_quota(states[0]),
        0 <= at < states.len(),
    ensures
        within_quota(states[at]),
    decreases at,
{
    if at > 0 {
        lemma_quota_never_exceeded(states, attempts, at - 1);
        assert(states[at - 1].purchase_refusal(
            attempts[at - 1].token_sent,
            attempts[at - 1].amount_sent,
            attempts[at - 1].buyer,
        ) is None);
        lemma_purchase_keeps_quota(
            states[at - 1],
            attempts[at - 1].token_sent,
            attempts[at - 1].amount_sent,
            attempts[at - 1].buyer,
        );
    }
}

/// Selection is a function of the buyer, the height and the pool: two
/// selections for the same three agree. The one digest serves every
/// category, so two categories of equal length are served the same index.
pub proof fn lemma_selection_is_determined(
    pool: Loot,
    buyer: Seq<char>,
    height: u64,
    first: Result<TraitBundle, ContractError>,
    second: Result<TraitBundle, ContractError>,
    len: nat,
)
    requires
        first == selection(pool, seed_digest(purchase_seed(buyer, height))),
        second == selection(pool, seed_digest(purchase_seed(buyer, height))),
    ensures
        first == second,
        first is Err <==> pool.has_empty_category(),
        pool.names@.len() == len && pool.origins@.len() == len ==> pick_index(
            seed_digest(purchase_seed(buyer, height)),
            pool.names@.len(),
        ) == pick_index(seed_digest(purchase_seed(buyer, height)), pool.origins@.len()),
{
}

/// The index that a digest selects lies within the category.
pub proof fn lemma_pick_index_in_range(digest: u64, len: nat)
    requires
        len > 0,
    ensures
        0 <= pick_index(digest, len) < len,
{
}

/// The allow-list gates exactly the buyers that are not on it: a buyer
/// other than the administrator who is not listed, and whose purchase
/// succeeds while the list is not enforced, is refused as not allow-listed
/// once it is enforced, everything else being equal.
pub proof fn lemma_allow_list_gates(
    state: SaleState,
    token_sent: Seq<char>,
    amount_sent: u128,
    buyer: Seq<char>,
)
    requires
        !state.config.is_admin(buyer),
        !state.listed.contains(buyer),
        state.with_config(Config { whitelist: false, ..state.config }).purchase_refusal(
            token_sent,
            amount_sent,
            buyer,
        ) is None,
    ensures
        state.with_config(Config { whitelist: true, ..state.config }).purchase_refusal(
            token_sent,
            amount_sent,
            buyer,
        ) == Some(ContractError::NotWhitelisted {  }),
{
}

/// A buyer who is refused only for not being allow-listed is let through
/// by the policy once the list is no longer enforced, or once the buyer is
/// on it.
pub proof fn lemma_allow_list_lifts(
    state: SaleState,
    token_sent: Seq<char>,
    amount_sent: u128,
    buyer: Seq<char>,
    addresses: Seq<Seq<char>>,
)
    requires
        ascending(state.listed),
        state.authorization_refusal(token_sent, amount_sent, buyer) == Some(
            ContractError::NotWhitelisted {  },
        ),
        addresses.contains(buyer),
    ensures
        state.with_config(Config { whitelist: false, ..state.config }).authorization_refusal(
            token_sent,
            amount_sent,
            buyer,
        ) is None,
        state.after_listing(addresses).authorization_refusal(token_sent, amount_sent, buyer)
            is None,
{
    lemma_listed_with_all(state.listed, addresses);
}

/// Listing addresses keeps the list ascending, and afterwards exactly the
/// identities listed before and the addresses named are listed.
pub proof fn lemma_listed_with_all(list: Seq<Seq<char>>, addresses: Seq<Seq<char>>)
    requires
        ascending(list),
    ensures
        ascending(listed_with_all(list, addresses)),
        forall|a: Seq<char>|
            listed_with_all(list, addresses).contains(a) <==> (list.contains(a)
                || addresses.contains(a)),
    decreases addresses.len(),
{
    if addresses.len() > 0 {
        let front = addresses.drop_last();
        let last = addresses.last();
        lemma_listed_with_all(list, front);
        lemma_listed_with(listed_with_all(list, front), last);
        assert forall|a: Seq<char>|
            listed_with_all(list, addresses).contains(a) <==> (list.contains(a)
                || addresses.contains(a)) by {
            if front.contains(a) {
                let i = choose|i: int| 0 <= i < front.len() && front[i] == a;
                assert(addresses[i] == a);
            }
            if addresses.contains(a) {
                let i = choose|i: int| 0 <= i < addresses.len() && addresses[i] == a;
                if i < addresses.len() - 1 {
                    assert(front[i] == a);
                }
            }
            assert(addresses[addresses.len() - 1] == last);
        }
    }
}

/// The administrator is refused for one reason only: a pool that cannot
/// serve an allocation. Neither the payment medium, nor the amount, nor the
/// supply, nor the quota, nor the allow-list stands in the way.
pub proof fn lemma_admin_override(
    state: SaleState,
    token_sent: Seq<char>,
    amount_sent: u128,
    buyer: Seq<char>,
)
    requires
        state.config.is_admin(buyer),
    ensures
        state.authorization_refusal(token_sent, amount_sent, buyer) is None,
        state.purchase_refusal(token_sent, amount_sent, buyer) == if state.loot.has_empty_category()
            || state.loot.curr_num_items == u64::MAX {
            Some(ContractError::Failed {  })
        } else {
            None::<ContractError>
        },
{
}

/// Reading the payload of a record whose payload was replaced gives the
/// new payload and nothing of the old one; everything else in the record
/// is what it was; and of two replacements only the last one shows.
pub proof fn lemma_payload_round_trip(token: TokenInfo, first: Extension, second: Extension)
    ensures
        with_payload(token, first).extension == first,
        with_payload(token, first).owner == token.owner,
        with_payload(token, first).approvals == token.approvals,
        with_payload(token, first).token_uri == token.token_uri,
        with_payload(with_payload(token, first), second) == with_payload(token, second),
{
}

/// In an ascending list the page after one of its entries begins with the
/// entry behind it: the entries up to and including the start are left
/// out, and no other.
pub proof fn lemma_page_after_entry(list: Seq<Seq<char>>, at: int, limit: nat)
    requires
        ascending(list),
        0 <= at < list.len(),
    ensures
        listed_after(list, Some(list[at])) == list.skip(at + 1),
        page_of(list, None, limit) == if limit < list.len() {
            list.take(limit as int)
        } else {
            list
        },
        limit >= list.len() - at - 1 ==> page_of(list, Some(list[at]), limit) == list.skip(at + 1),
{
    let start = list[at];
    assert forall|i: int| 0 <= i < at + 1 implies !address_before(start, #[trigger] list[i]) by {
        if i < at {
            crate::address::lemma_address_before_asymmetric(list[i], start);
        } else {
            crate::address::lemma_address_order_irreflexive(start);
        }
    }
    lemma_listed_after_is_suffix(list, start, at + 1);
}

} // verus!
