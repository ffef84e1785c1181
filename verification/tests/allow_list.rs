use lootopia::address::{rank, Rank};
use lootopia::contract::{add_whitelist_addresses, instantiate, query, try_whitelisted};
use lootopia::errors::ContractError;
use lootopia::ledger::{AllowList, MintHistory, PurchaseLedger};
use lootopia::msg::{AllWhitelisted, Cw721QueryMsg, InstantiateMsg, QueryMsg, QueryResponse, Response};
use lootopia::state::Sale;

fn strings(values: &[&str]) -> Vec<String> {
    values.iter().map(|v| v.to_string()).collect()
}

fn setup() -> Sale {
    let msg = InstantiateMsg {
        name: "Loot".to_string(),
        symbol: "LOOT".to_string(),
        minter: "token".to_string(),
        payment_token: "token".to_string(),
        price: 100,
        treasury: "treasury".to_string(),
        limit_per_address: 2,
        names: strings(&["A"]),
        origins: strings(&["A"]),
        professions: strings(&["A"]),
        obsessions: strings(&["A"]),
        talents: strings(&["A"]),
        skills: strings(&["A"]),
        alignments: strings(&["A"]),
        num_items: 10,
        whitelist: true,
        whitelist_admin: "keeper".to_string(),
        admin: "admin".to_string(),
    };
    instantiate(msg).0
}

fn listed(sale: &Sale) -> Vec<String> {
    let mut all = Vec::new();
    let mut start = None;
    loop {
        let page = try_whitelisted(sale, start.clone(), Some(30)).accounts;
        if page.is_empty() {
            return all;
        }
        start = page.last().cloned();
        all.extend(page);
    }
}

#[test]
fn pages_are_ascending_and_start_after_the_given_entry() {
    let mut sale = setup();
    let admin = "admin".to_string();
    assert!(add_whitelist_addresses(&mut sale, &admin, strings(&["carol", "alice", "bob"])).is_ok());
    let first = try_whitelisted(&sale, None, Some(1));
    assert_eq!(first, AllWhitelisted { accounts: strings(&["alice"]) });
    let rest = try_whitelisted(&sale, Some("alice".to_string()), None);
    assert_eq!(rest.accounts, strings(&["bob", "carol"]));
    assert_eq!(try_whitelisted(&sale, None, None).accounts, strings(&["alice", "bob", "carol"]));
    assert_eq!(try_whitelisted(&sale, Some("bob".to_string()), Some(5)).accounts, strings(&["carol"]));
    assert!(try_whitelisted(&sale, Some("carol".to_string()), None).accounts.is_empty());
    assert!(try_whitelisted(&sale, Some("zed".to_string()), None).accounts.is_empty());
    assert_eq!(
        try_whitelisted(&sale, Some("b".to_string()), Some(1)).accounts,
        strings(&["bob"])
    );
    assert_eq!(
        try_whitelisted(&sale, Some("".to_string()), None).accounts,
        strings(&["alice", "bob", "carol"])
    );
    assert!(try_whitelisted(&sale, None, Some(0)).accounts.is_empty());
}

#[test]
fn a_page_holds_ten_by_default_and_thirty_at_most() {
    let mut sale = setup();
    let admin = "admin".to_string();
    let names: Vec<String> = (0..45).map(|n| format!("addr{:02}", n)).collect();
    assert!(add_whitelist_addresses(&mut sale, &admin, names.clone()).is_ok());
    assert_eq!(try_whitelisted(&sale, None, None).accounts, names[..10].to_vec());
    assert_eq!(try_whitelisted(&sale, None, Some(30)).accounts, names[..30].to_vec());
    assert_eq!(try_whitelisted(&sale, None, Some(31)).accounts, names[..30].to_vec());
    assert_eq!(try_whitelisted(&sale, None, Some(u32::MAX)).accounts, names[..30].to_vec());
    assert_eq!(try_whitelisted(&sale, None, Some(29)).accounts, names[..29].to_vec());
    assert_eq!(
        try_whitelisted(&sale, Some("addr29".to_string()), Some(30)).accounts,
        names[30..].to_vec()
    );
    assert_eq!(
        try_whitelisted(&sale, Some("addr39".to_string()), None).accounts,
        names[40..].to_vec()
    );
    assert_eq!(listed(&sale), names);
}

#[test]
fn listing_is_idempotent_and_keeps_the_order() {
    let mut sale = setup();
    let keeper = "keeper".to_string();
    assert_eq!(
        add_whitelist_addresses(&mut sale, &keeper, strings(&["m", "a", "z", "m", "a"])),
        Ok(Response::new())
    );
    assert_eq!(listed(&sale), strings(&["a", "m", "z"]));
    assert!(add_whitelist_addresses(&mut sale, &keeper, strings(&["m"])).is_ok());
    assert_eq!(listed(&sale), strings(&["a", "m", "z"]));
    assert!(add_whitelist_addresses(&mut sale, &keeper, Vec::new()).is_ok());
    assert_eq!(listed(&sale), strings(&["a", "m", "z"]));
    assert!(add_whitelist_addresses(&mut sale, &keeper, strings(&["b", "", "zz", "Z"])).is_ok());
    assert_eq!(listed(&sale), strings(&["", "Z", "a", "b", "m", "z", "zz"]));
    assert!(sale.ledger.allow_list.contains("zz"));
    assert!(!sale.ledger.allow_list.contains("zzz"));
    assert_eq!(sale.ledger.allow_list.len(), 7);
}

#[test]
fn only_the_two_admins_may_list() {
    let mut sale = setup();
    let stranger = "stranger".to_string();
    assert_eq!(
        add_whitelist_addresses(&mut sale, &stranger, strings(&["stranger"])),
        Err(ContractError::Unauthorized {})
    );
    assert!(listed(&sale).is_empty());
    assert!(add_whitelist_addresses(&mut sale, &"admin".to_string(), strings(&["x"])).is_ok());
    assert!(add_whitelist_addresses(&mut sale, &"keeper".to_string(), strings(&["y"])).is_ok());
    assert_eq!(listed(&sale), strings(&["x", "y"]));
}

#[test]
fn identities_are_ordered_by_their_bytes() {
    assert_eq!(rank("a", "b"), Rank::Before);
    assert_eq!(rank("b", "a"), Rank::After);
    assert_eq!(rank("abc", "abc"), Rank::Same);
    assert_eq!(rank("", ""), Rank::Same);
    assert_eq!(rank("", "a"), Rank::Before);
    assert_eq!(rank("ab", "abc"), Rank::Before);
    assert_eq!(rank("abd", "abc"), Rank::After);
    assert_eq!(rank("Z", "a"), Rank::Before);
    assert_eq!(rank("z", "é"), Rank::Before);
    assert_eq!(rank("é", "€"), Rank::Before);
    for (a, b) in [("terra1a", "terra1b"), ("x", "x"), ("é", "e"), ("10", "9")] {
        let expected = match a.as_bytes().cmp(b.as_bytes()) {
            std::cmp::Ordering::Less => Rank::Before,
            std::cmp::Ordering::Equal => Rank::Same,
            std::cmp::Ordering::Greater => Rank::After,
        };
        assert_eq!(rank(a, b), expected);
    }
}

#[test]
fn the_allow_list_grows_by_value() {
    let list = AllowList::new().with("b".to_string()).with("a".to_string()).with("b".to_string());
    assert_eq!(list.len(), 2);
    assert!(list.contains("a"));
    assert!(list.contains("b"));
    assert!(!list.contains("c"));
    assert_eq!(list.page(&None, 10), strings(&["a", "b"]));
    assert_eq!(list.page(&Some("a".to_string()), 10), strings(&["b"]));
    assert_eq!(list.page(&None, 1), strings(&["a"]));
}

#[test]
fn the_history_keeps_the_order_of_issue() {
    let history = MintHistory::new()
        .with(&"b".to_string(), 1)
        .with(&"a".to_string(), 2)
        .with(&"b".to_string(), 3)
        .with(&"c".to_string(), 4)
        .with(&"b".to_string(), 5);
    assert_eq!(history.tokens("b"), vec![1, 3, 5]);
    assert_eq!(history.tokens("a"), vec![2]);
    assert_eq!(history.tokens("c"), vec![4]);
    assert_eq!(history.tokens("d"), Vec::<u64>::new());
    assert_eq!(history.count("b"), 3);
    assert_eq!(history.count("d"), 0);
}

#[test]
fn the_ledger_keeps_its_two_parts_apart() {
    let mut ledger = PurchaseLedger::new();
    ledger.record_mint(&"x".to_string(), 9);
    assert!(!ledger.allow_list.contains("x"));
    ledger.allow("y".to_string());
    assert_eq!(ledger.mints.count("y"), 0);
    assert_eq!(ledger.mints.tokens("x"), vec![9]);
    assert!(ledger.allow_list.contains("y"));
}

#[test]
fn questions_about_tokens_go_to_the_registry() {
    let mut sale = setup();
    assert!(add_whitelist_addresses(&mut sale, &"admin".to_string(), strings(&["a", "b"])).is_ok());
    assert_eq!(
        query(&sale, QueryMsg::Whitelisted { start_after: None, limit: Some(1) }),
        QueryResponse::Whitelisted(AllWhitelisted { accounts: strings(&["a"]) })
    );
    assert_eq!(
        query(&sale, QueryMsg::NumTokens {}),
        QueryResponse::Registry(Cw721QueryMsg::NumTokens {})
    );
    assert_eq!(
        query(&sale, QueryMsg::OwnerOf { token_id: "3".to_string(), include_expired: Some(true) }),
        QueryResponse::Registry(Cw721QueryMsg::OwnerOf {
            token_id: "3".to_string(),
            include_expired: Some(true),
        })
    );
    assert_eq!(
        query(
            &sale,
            QueryMsg::Tokens { owner: "o".to_string(), start_after: None, limit: Some(4) }
        ),
        QueryResponse::Registry(Cw721QueryMsg::Tokens {
            owner: "o".to_string(),
            start_after: None,
            limit: Some(4),
        })
    );
}
