use lootopia::errors::ContractError;
use lootopia::selector::{
    decimal_string, get_hash, seed_bytes, select_by_digest, select_traits, TraitBundle,
};
use lootopia::state::Loot;
use std::collections::hash_map::DefaultHasher;
use std::hash::{Hash, Hasher};

fn strings(values: &[&str]) -> Vec<String> {
    values.iter().map(|v| v.to_string()).collect()
}

fn pool() -> Loot {
    Loot {
        names: strings(&["n0", "n1"]),
        origins: strings(&["o0", "o1", "o2"]),
        professions: strings(&["p0", "p1", "p2", "p3"]),
        obsessions: strings(&["b0"]),
        talents: strings(&["t0", "t1", "t2", "t3", "t4"]),
        skills: strings(&["s0", "s1"]),
        alignments: strings(&["a0", "a1", "a2", "a3", "a4", "a5", "a6"]),
        num_items: 10,
        curr_num_items: 0,
    }
}

#[test]
fn numerals_are_decimal() {
    assert_eq!(decimal_string(0), "0");
    assert_eq!(decimal_string(7), "7");
    assert_eq!(decimal_string(10), "10");
    assert_eq!(decimal_string(109), "109");
    assert_eq!(decimal_string(1234567890), "1234567890");
    assert_eq!(decimal_string(u64::MAX), "18446744073709551615");
    for n in 0..1000u64 {
        assert_eq!(decimal_string(n), n.to_string());
    }
}

#[test]
fn the_seed_is_the_identity_followed_by_the_height() {
    assert_eq!(seed_bytes(&"alice".to_string(), 12), b"alice12".to_vec());
    assert_eq!(seed_bytes(&"".to_string(), 0), b"0".to_vec());
    assert_eq!(seed_bytes(&"é".to_string(), 305), vec![0xc3, 0xa9, b'3', b'0', b'5']);
}

#[test]
fn the_digest_is_that_of_the_default_hasher() {
    for seed in [Vec::new(), b"a".to_vec(), b"alice12".to_vec(), vec![0u8; 64]] {
        let mut hasher = DefaultHasher::new();
        seed.hash(&mut hasher);
        assert_eq!(get_hash(&seed), hasher.finish());
    }
    assert_ne!(get_hash(&b"alice12".to_vec()), get_hash(&b"alice13".to_vec()));
    assert_ne!(get_hash(&b"alice12".to_vec()), get_hash(&b"bob12".to_vec()));
    assert_eq!(get_hash(&b"alice12".to_vec()), get_hash(&b"alice12".to_vec()));
}

#[test]
fn one_digest_serves_every_category() {
    let bundle = select_by_digest(5, &pool()).unwrap();
    assert_eq!(
        bundle,
        TraitBundle {
            name: "n1".to_string(),
            origin: "o2".to_string(),
            profession: "p1".to_string(),
            obsession: "b0".to_string(),
            talent: "t0".to_string(),
            skill: "s1".to_string(),
            alignment: "a5".to_string(),
        }
    );
    let zero = select_by_digest(0, &pool()).unwrap();
    assert_eq!(zero.name, "n0");
    assert_eq!(zero.alignment, "a0");
    let big = select_by_digest(u64::MAX, &pool()).unwrap();
    assert_eq!(big.name, "n1");
    assert_eq!(big.origin, "o0");
    assert_eq!(big.profession, "p3");
    assert_eq!(big.talent, "t0");
    assert_eq!(big.alignment, "a1");
}

#[test]
fn categories_of_equal_length_get_equal_indices() {
    for digest in [0u64, 1, 2, 3, 1 << 40, u64::MAX] {
        let bundle = select_by_digest(digest, &pool()).unwrap();
        assert_eq!(bundle.name[1..], bundle.skill[1..]);
    }
}

#[test]
fn an_empty_category_fails() {
    let mut without_names = pool();
    without_names.names = Vec::new();
    assert_eq!(select_by_digest(5, &without_names), Err(ContractError::Failed {}));
    let mut without_alignments = pool();
    without_alignments.alignments = Vec::new();
    assert_eq!(select_by_digest(5, &without_alignments), Err(ContractError::Failed {}));
    assert_eq!(
        select_traits(&b"alice12".to_vec(), &without_alignments),
        Err(ContractError::Failed {})
    );
    let mut without_talents = pool();
    without_talents.talents = Vec::new();
    assert_eq!(select_by_digest(0, &without_talents), Err(ContractError::Failed {}));
}

#[test]
fn selecting_by_seed_is_selecting_by_its_digest() {
    let seed = seed_bytes(&"alice".to_string(), 12);
    assert_eq!(select_traits(&seed, &pool()), select_by_digest(get_hash(&seed), &pool()));
    assert_eq!(select_traits(&seed, &pool()), select_traits(&seed, &pool()));
}

#[test]
fn reserving_a_slot_stops_at_the_supply() {
    let mut loot = pool();
    loot.num_items = 2;
    assert_eq!(loot.try_reserve_slot(), Ok(1));
    assert_eq!(loot.try_reserve_slot(), Ok(2));
    assert_eq!(loot.try_reserve_slot(), Err(ContractError::MaxTokensMinted {}));
    assert_eq!(loot.curr_num_items, 2);
    loot.curr_num_items = 3;
    assert_eq!(loot.try_reserve_slot(), Err(ContractError::MaxTokensMinted {}));
    assert_eq!(loot.curr_num_items, 3);
}
