use lootopia::contract::{authorize, execute, execute_buy, instantiate, receive};
use lootopia::errors::ContractError;
use lootopia::msg::{
    Cw20ReceiveMsg, ExecuteMsg, InstantiateMsg, Instruction, MintMsg, ReceiveMsg, Response,
};
use lootopia::selector::{get_hash, seed_bytes};
use lootopia::state::{Metadata, Sale, Trait};

fn strings(values: &[&str]) -> Vec<String> {
    values.iter().map(|v| v.to_string()).collect()
}

fn setup(names: &[&str], num_items: u64, limit_per_address: u64, whitelist: bool) -> Sale {
    let msg = InstantiateMsg {
        name: "Loot".to_string(),
        symbol: "LOOT".to_string(),
        minter: "token".to_string(),
        payment_token: "token".to_string(),
        price: 100,
        treasury: "treasury".to_string(),
        limit_per_address,
        names: strings(names),
        origins: strings(&["north", "south", "east"]),
        professions: strings(&["smith", "scribe"]),
        obsessions: strings(&["gold"]),
        talents: strings(&["song", "sword", "sail", "seed"]),
        skills: strings(&["cook", "climb", "count", "carve", "chart"]),
        alignments: strings(&["lawful", "neutral", "chaotic"]),
        num_items,
        whitelist,
        whitelist_admin: "keeper".to_string(),
        admin: "admin".to_string(),
    };
    instantiate(msg).0
}

fn envelope() -> MintMsg {
    MintMsg {
        token_id: "ignored".to_string(),
        owner: "ignored".to_string(),
        token_uri: None,
        extension: None,
    }
}

fn buy(sale: &mut Sale, buyer: &str, amount: u128) -> Result<Response, ContractError> {
    execute_buy(sale, 12, "token".to_string(), amount, buyer.to_string(), envelope())
}

fn minted(response: &Response) -> MintMsg {
    match &response.messages[0] {
        Instruction::Mint(mint) => mint.clone(),
        other => panic!("expected a mint, got {:?}", other),
    }
}

#[test]
fn two_purchases_then_supply_is_exhausted() {
    let mut sale = setup(&["A", "B"], 2, 5, false);
    let first = buy(&mut sale, "X", 100).unwrap();
    assert_eq!(minted(&first).token_id, "1");
    let second = buy(&mut sale, "X", 100).unwrap();
    assert_eq!(minted(&second).token_id, "2");
    assert_eq!(buy(&mut sale, "X", 100), Err(ContractError::MaxTokensMinted {}));
    assert_eq!(buy(&mut sale, "X", 1_000_000), Err(ContractError::MaxTokensMinted {}));
    assert_eq!(buy(&mut sale, "X", 0), Err(ContractError::Unauthorized {}));
    assert_eq!(sale.loot.curr_num_items, 2);
    assert_eq!(sale.ledger.mints.tokens("X"), vec![1, 2]);
}

#[test]
fn second_purchase_over_the_quota_is_refused() {
    let mut sale = setup(&["A", "B"], 10, 1, false);
    assert!(buy(&mut sale, "Y", 100).is_ok());
    assert_eq!(buy(&mut sale, "Y", 500), Err(ContractError::MaxMintsPerAddress {}));
    assert_eq!(sale.loot.curr_num_items, 1);
    assert_eq!(sale.ledger.mints.count("Y"), 1);
    assert!(buy(&mut sale, "Z", 100).is_ok());
}

#[test]
fn listed_by_the_admin_then_the_purchase_succeeds() {
    let mut sale = setup(&["A", "B"], 10, 1, true);
    assert_eq!(buy(&mut sale, "Z", 100), Err(ContractError::NotWhitelisted {}));
    let added = execute(
        &mut sale,
        12,
        "admin".to_string(),
        None,
        ExecuteMsg::AddWhitelistAddresses { addresses: strings(&["Z"]) },
    );
    assert_eq!(added, Ok(Response::new()));
    let response = buy(&mut sale, "Z", 100).unwrap();
    assert_eq!(minted(&response).owner, "Z");
    assert_eq!(minted(&response).token_id, "1");
}

#[test]
fn issued_count_grows_by_one_per_purchase() {
    let mut sale = setup(&["A", "B", "C"], 4, 10, false);
    for n in 1..=4u64 {
        let buyer = format!("buyer{}", n % 2);
        let response = buy(&mut sale, &buyer, 100).unwrap();
        assert_eq!(sale.loot.curr_num_items, n);
        assert_eq!(minted(&response).token_id, n.to_string());
        assert_eq!(minted(&response).token_uri, Some(n.to_string()));
        assert!(sale.loot.curr_num_items <= sale.loot.num_items);
    }
    assert_eq!(buy(&mut sale, "late", 100), Err(ContractError::MaxTokensMinted {}));
    assert_eq!(sale.loot.curr_num_items, 4);
    assert_eq!(sale.ledger.mints.tokens("buyer1"), vec![1, 3]);
    assert_eq!(sale.ledger.mints.tokens("buyer0"), vec![2, 4]);
    assert_eq!(sale.ledger.mints.tokens("late"), Vec::<u64>::new());
}

#[test]
fn history_never_exceeds_the_quota() {
    let mut sale = setup(&["A"], 100, 3, false);
    for _ in 0..3 {
        assert!(buy(&mut sale, "Q", 100).is_ok());
    }
    for _ in 0..3 {
        assert_eq!(buy(&mut sale, "Q", 100), Err(ContractError::MaxMintsPerAddress {}));
    }
    assert_eq!(sale.ledger.mints.count("Q"), 3);
    for _ in 0..5 {
        assert!(buy(&mut sale, "admin", 100).is_ok());
    }
    assert_eq!(sale.ledger.mints.count("admin"), 5);
    assert_eq!(sale.ledger.mints.tokens("admin"), vec![4, 5, 6, 7, 8]);
}

#[test]
fn a_quota_of_zero_refuses_everybody_but_the_admin() {
    let mut sale = setup(&["A"], 100, 0, false);
    assert_eq!(buy(&mut sale, "Q", 100), Err(ContractError::MaxMintsPerAddress {}));
    assert!(buy(&mut sale, "admin", 100).is_ok());
}

#[test]
fn the_same_buyer_and_height_select_the_same_bundle() {
    let mut first = setup(&["A", "B", "C", "D", "E", "F", "G"], 10, 10, false);
    let mut second = setup(&["A", "B", "C", "D", "E", "F", "G"], 10, 10, false);
    let a = minted(&buy(&mut first, "X", 100).unwrap());
    let b = minted(&buy(&mut second, "X", 100).unwrap());
    assert_eq!(a, b);
    let again = minted(&buy(&mut first, "X", 100).unwrap());
    assert_eq!(again.extension, a.extension);
    assert_eq!(again.token_id, "2");
}

#[test]
fn the_payload_is_the_character_sheet_of_the_selection() {
    let mut sale = setup(&["A", "B", "C"], 10, 10, false);
    let digest = get_hash(&seed_bytes(&"X".to_string(), 12));
    let pick = |values: &Vec<String>| values[(digest % values.len() as u64) as usize].clone();
    let expected = Metadata {
        image: None,
        image_data: None,
        external_url: None,
        description: Some("Character Sheet Loot for the Lootopia Metaverse".to_string()),
        name: Some(pick(&sale.loot.names)),
        attributes: Some(vec![
            Trait {
                display_type: None,
                trait_type: "Origin".to_string(),
                value: pick(&sale.loot.origins),
            },
            Trait {
                display_type: None,
                trait_type: "Profession".to_string(),
                value: pick(&sale.loot.professions),
            },
            Trait {
                display_type: None,
                trait_type: "Obsession".to_string(),
                value: pick(&sale.loot.obsessions),
            },
            Trait {
                display_type: None,
                trait_type: "Talent".to_string(),
                value: pick(&sale.loot.talents),
            },
            Trait {
                display_type: None,
                trait_type: "Skill".to_string(),
                value: pick(&sale.loot.skills),
            },
            Trait {
                display_type: None,
                trait_type: "Alignment".to_string(),
                value: pick(&sale.loot.alignments),
            },
        ]),
        background_color: None,
        animation_url: None,
        youtube_url: None,
    };
    let response = buy(&mut sale, "X", 100).unwrap();
    assert!(response.attributes.is_empty());
    assert_eq!(response.messages.len(), 2);
    let mint = minted(&response);
    assert_eq!(mint.owner, "X");
    assert_eq!(mint.token_id, "1");
    assert_eq!(mint.token_uri, Some("1".to_string()));
    assert_eq!(mint.extension, Some(expected));
    match &response.messages[1] {
        Instruction::Transfer(transfer) => {
            assert_eq!(transfer.token, "token");
            assert_eq!(transfer.amount, 100);
            assert_eq!(transfer.recipient, "treasury");
        },
        other => panic!("expected a transfer, got {:?}", other),
    }
}

#[test]
fn the_whole_payment_is_forwarded() {
    let mut sale = setup(&["A"], 10, 10, false);
    let response = buy(&mut sale, "X", 250).unwrap();
    match &response.messages[1] {
        Instruction::Transfer(transfer) => assert_eq!(transfer.amount, 250),
        other => panic!("expected a transfer, got {:?}", other),
    }
}

#[test]
fn a_wrong_payment_is_unauthorized() {
    let mut sale = setup(&["A"], 10, 10, false);
    let wrong_token =
        execute_buy(&mut sale, 12, "other".to_string(), 100, "X".to_string(), envelope());
    assert_eq!(wrong_token, Err(ContractError::Unauthorized {}));
    assert_eq!(buy(&mut sale, "X", 99), Err(ContractError::Unauthorized {}));
    assert_eq!(sale.loot.curr_num_items, 0);
    assert_eq!(sale.ledger.mints.count("X"), 0);
    assert!(buy(&mut sale, "X", 100).is_ok());
}

#[test]
fn the_allow_list_gates_only_while_it_is_enforced() {
    let mut enforced = setup(&["A"], 10, 10, true);
    let mut open = setup(&["A"], 10, 10, false);
    assert_eq!(buy(&mut enforced, "W", 100), Err(ContractError::NotWhitelisted {}));
    assert!(buy(&mut open, "W", 100).is_ok());
    assert_eq!(enforced.loot.curr_num_items, 0);
    assert_eq!(enforced.ledger.mints.count("W"), 0);
}

#[test]
fn the_admin_bypasses_every_check_but_the_pool() {
    let mut sale = setup(&["A"], 1, 0, true);
    let free = execute_buy(&mut sale, 3, "other".to_string(), 0, "admin".to_string(), envelope());
    assert_eq!(minted(&free.unwrap()).token_id, "1");
    let past_supply =
        execute_buy(&mut sale, 3, "other".to_string(), 0, "admin".to_string(), envelope());
    assert_eq!(minted(&past_supply.unwrap()).token_id, "2");
    assert_eq!(sale.loot.curr_num_items, 2);
    assert_eq!(sale.loot.num_items, 1);

    let mut malformed = setup(&[], 5, 5, false);
    assert_eq!(buy(&mut malformed, "admin", 100), Err(ContractError::Failed {}));
    assert_eq!(buy(&mut malformed, "X", 100), Err(ContractError::Failed {}));
    assert_eq!(malformed.loot.curr_num_items, 0);
    assert_eq!(malformed.ledger.mints.count("admin"), 0);
}

#[test]
fn a_counter_at_its_end_serves_nobody() {
    let mut sale = setup(&["A"], u64::MAX, 5, false);
    sale.loot.curr_num_items = u64::MAX;
    assert_eq!(buy(&mut sale, "admin", 100), Err(ContractError::Failed {}));
    assert_eq!(buy(&mut sale, "X", 100), Err(ContractError::MaxTokensMinted {}));
    sale.loot.curr_num_items = u64::MAX - 1;
    let last = buy(&mut sale, "X", 100).unwrap();
    assert_eq!(minted(&last).token_id, "18446744073709551615");
}

#[test]
fn an_exhausted_and_malformed_pool_reports_the_supply_first() {
    let mut sale = setup(&[], 0, 5, false);
    assert_eq!(buy(&mut sale, "X", 100), Err(ContractError::MaxTokensMinted {}));
    assert_eq!(buy(&mut sale, "admin", 100), Err(ContractError::Failed {}));
}

#[test]
fn authorize_checks_in_order_and_records_nothing() {
    let mut sale = setup(&["A"], 10, 1, true);
    let token = "token".to_string();
    let other = "other".to_string();
    let buyer = "B".to_string();
    let admin = "admin".to_string();
    assert_eq!(
        authorize(&buyer, &other, 0, &sale.config, &sale.ledger),
        Err(ContractError::Unauthorized {})
    );
    assert_eq!(
        authorize(&buyer, &token, 99, &sale.config, &sale.ledger),
        Err(ContractError::Unauthorized {})
    );
    assert_eq!(
        authorize(&buyer, &token, 100, &sale.config, &sale.ledger),
        Err(ContractError::NotWhitelisted {})
    );
    assert_eq!(authorize(&admin, &other, 0, &sale.config, &sale.ledger), Ok(()));
    sale.ledger.allow(buyer.clone());
    assert_eq!(authorize(&buyer, &token, 100, &sale.config, &sale.ledger), Ok(()));
    assert_eq!(authorize(&buyer, &token, 100, &sale.config, &sale.ledger), Ok(()));
    sale.ledger.record_mint(&buyer, 1);
    assert_eq!(
        authorize(&buyer, &token, 100, &sale.config, &sale.ledger),
        Err(ContractError::MaxMintsPerAddress {})
    );
    assert_eq!(sale.ledger.mints.count("B"), 1);
}

#[test]
fn a_payment_buys_for_the_one_who_paid() {
    let mut sale = setup(&["A"], 10, 10, false);
    let paid = Cw20ReceiveMsg {
        sender: "payer".to_string(),
        amount: 100,
        msg: ReceiveMsg::Buy { mint_msg: envelope() },
    };
    let response = receive(&mut sale, 9, "token".to_string(), paid.clone()).unwrap();
    assert_eq!(minted(&response).owner, "payer");
    assert_eq!(sale.ledger.mints.tokens("payer"), vec![1]);

    let through = execute(&mut sale, 9, "token".to_string(), None, ExecuteMsg::Receive(paid.clone()));
    assert_eq!(minted(&through.unwrap()).token_id, "2");

    let wrong = execute(&mut sale, 9, "elsewhere".to_string(), None, ExecuteMsg::Receive(paid));
    assert_eq!(wrong, Err(ContractError::Unauthorized {}));
    assert_eq!(sale.loot.curr_num_items, 2);
}

#[test]
fn the_envelope_does_not_matter() {
    let mut first = setup(&["A", "B"], 10, 10, false);
    let mut second = setup(&["A", "B"], 10, 10, false);
    let full = MintMsg {
        token_id: "77".to_string(),
        owner: "somebody".to_string(),
        token_uri: Some("uri".to_string()),
        extension: Some(Metadata::default()),
    };
    let a = execute_buy(&mut first, 5, "token".to_string(), 100, "X".to_string(), full);
    let b = execute_buy(&mut second, 5, "token".to_string(), 100, "X".to_string(), envelope());
    assert_eq!(a, b);
}
