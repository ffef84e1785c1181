//! Deterministic selection of attributes from a seed.

use crate::errors::ContractError;
use crate::state::Loot;
use std::collections::hash_map::DefaultHasher;
use std::hash::{Hash, Hasher};
use vstd::prelude::*;
use vstd::std_specs::hash::DefaultHasherAdditionalSpecFns;
use vstd::string::*;
use vstd::utf8::encode_utf8;

verus! {

/// The byte chunks that hashing a byte vector writes into a hasher: what
/// `<Vec<u8> as Hash>::hash` feeds, as a function of the vector's bytes.
pub uninterp spec fn hash_writes(seed: Seq<u8>) -> Seq<Seq<u8>>;

/// Feeds `seed` into `state` through `<Vec<u8> as Hash>::hash`.
///
/// Trusted: the hasher afterwards has seen what it had seen before, followed
/// by the chunks that the standard `Hash` impl of a byte vector writes, which
/// depend on the bytes alone.
#[verifier::external_body]
fn feed_seed(seed: &Vec<u8>, state: &mut DefaultHasher)
    ensures
        final(state)@ == old(state)@ + hash_writes(seed@),
{
    seed.hash(state);
}

/// The 64-bit digest of a seed: a fresh default hasher fed with the seed.
pub open spec fn seed_digest(seed: Seq<u8>) -> u64 {
    DefaultHasher::spec_finish(hash_writes(seed))
}

/// Computes the digest of `seed` with the standard library's default hasher,
/// created with its fixed keys.
pub fn get_hash(seed: &Vec<u8>) -> (digest: u64)
    ensures
        digest == seed_digest(seed@),
{
    let mut hasher = DefaultHasher::new();
    feed_seed(seed, &mut hasher);
    hasher.finish()
}

/// The character that writes the decimal digit `d`.
pub open spec fn digit_char(d: nat) -> char {
    if d == 0 {
        '0'
    } else if d == 1 {
        '1'
    } else if d == 2 {
        '2'
    } else if d == 3 {
        '3'
    } else if d == 4 {
        '4'
    } else if d == 5 {
        '5'
    } else if d == 6 {
        '6'
    } else if d == 7 {
        '7'
    } else if d == 8 {
        '8'
    } else {
        '9'
    }
}

/// The decimal numeral of `n`: no sign, no leading zero, `"0"` for zero.
pub open spec fn decimal_chars(n: nat) -> Seq<char>
    decreases n,
{
    if n < 10 {
        seq![digit_char(n)]
    } else {
        decimal_chars(n / 10).push(digit_char(n % 10))
    }
}

fn digit_str(d: u64) -> (text: &'static str)
    requires
        d < 10,
    ensures
        text@ == seq![digit_char(d as nat)],
{
    proof {
        reveal_strlit("0");
        reveal_strlit("1");
        reveal_strlit("2");
        reveal_strlit("3");
        reveal_strlit("4");
        reveal_strlit("5");
        reveal_strlit("6");
        reveal_strlit("7");
        reveal_strlit("8");
        reveal_strlit("9");
    }
    let text = if d == 0 {
        "0"
    } else if d == 1 {
        "1"
    } else if d == 2 {
        "2"
    } else if d == 3 {
        "3"
    } else if d == 4 {
        "4"
    } else if d == 5 {
        "5"
    } else if d == 6 {
        "6"
    } else if d == 7 {
        "7"
    } else if d == 8 {
        "8"
    } else {
        "9"
    };
    text
}

/// Writes `n` as a decimal numeral.
pub fn decimal_string(n: u64) -> (text: String)
    ensures
        text@ == decimal_chars(n as nat),
    decreases n,
{
    if n < 10 {
        String::from_str(digit_str(n))
    } else {
        let mut text = decimal_string(n / 10);
        text.append(digit_str(n % 10));
        text
    }
}

/// The seed of a purchase: the bytes of the buyer's identity, followed by
/// the bytes of the block height written as a decimal numeral.
pub open spec fn purchase_seed(buyer: Seq<char>, height: u64) -> Seq<u8> {
    encode_utf8(buyer) + encode_utf8(decimal_chars(height as nat))
}

/// Builds the seed of a purchase.
pub fn seed_bytes(buyer: &String, height: u64) -> (seed: Vec<u8>)
    ensures
        seed@ == purchase_seed(buyer@, height),
{
    let mut seed = buyer.as_str().as_bytes_vec();
    let numeral = decimal_string(height);
    let mut tail = numeral.as_str().as_bytes_vec();
    seed.append(&mut tail);
    seed
}

/// One value drawn from each of the seven categories.
#[derive(Clone, Debug, PartialEq)]
pub struct TraitBundle {
    pub name: String,
    pub origin: String,
    pub profession: String,
    pub obsession: String,
    pub talent: String,
    pub skill: String,
    pub alignment: String,
}

/// The index that a digest selects in a category of `len` values.
pub open spec fn pick_index(digest: u64, len: nat) -> int {
    (digest as int) % (len as int)
}

/// The value that a digest selects in a category.
pub open spec fn pick(category: Seq<String>, digest: u64) -> String {
    category[pick_index(digest, category.len())]
}

/// The bundle that a digest selects from a pool: in every category the value
/// at the digest's remainder by the category's length. The one digest serves
/// all seven categories, so categories of equal length yield equal indices.
pub open spec fn bundle_of(pool: Loot, digest: u64) -> TraitBundle {
    TraitBundle {
        name: pick(pool.names@, digest),
        origin: pick(pool.origins@, digest),
        profession: pick(pool.professions@, digest),
        obsession: pick(pool.obsessions@, digest),
        talent: pick(pool.talents@, digest),
        skill: pick(pool.skills@, digest),
        alignment: pick(pool.alignments@, digest),
    }
}

/// What selecting with a digest returns: `Failed` for a pool with an empty
/// category, the selected bundle otherwise.
pub open spec fn selection(pool: Loot, digest: u64) -> Result<TraitBundle, ContractError> {
    if pool.has_empty_category() {
        Err(ContractError::Failed {  })
    } else {
        Ok(bundle_of(pool, digest))
    }
}

fn pick_from(category: &Vec<String>, digest: u64) -> (value: Option<String>)
    ensures
        category@.len() == 0 ==> value is None,
        category@.len() > 0 ==> value == Some(pick(category@, digest)),
{
    let len = category.len();
    if len == 0 {
        None
    } else {
        let index = (digest % (len as u64)) as usize;
        Some(category[index].clone())
    }
}

/// Selects one value per category with an already computed digest.
pub fn select_by_digest(digest: u64, pool: &Loot) -> (bundle: Result<TraitBundle, ContractError>)
    ensures
        bundle == selection(*pool, digest),
{
    let name = pick_from(&pool.names, digest);
    let origin = pick_from(&pool.origins, digest);
    let profession = pick_from(&pool.professions, digest);
    let obsession = pick_from(&pool.obsessions, digest);
    let talent = pick_from(&pool.talents, digest);
    let skill = pick_from(&pool.skills, digest);
    let alignment = pick_from(&pool.alignments, digest);
    match (name, origin, profession, obsession, talent, skill, alignment) {
        (
            Some(name),
            Some(origin),
            Some(profession),
            Some(obsession),
            Some(talent),
            Some(skill),
            Some(alignment),
        ) => Ok(TraitBundle { name, origin, profession, obsession, talent, skill, alignment }),
        _ => Err(ContractError::Failed {  }),
    }
}

/// Selects one value per category for a seed: the seed is hashed once, and
/// the digest selects in every category.
pub fn select_traits(seed: &Vec<u8>, pool: &Loot) -> (bundle: Result<TraitBundle, ContractError>)
    ensures
        bundle == selection(*pool, seed_digest(seed@)),
{
    select_by_digest(get_hash(seed), pool)
}

} // verus!
