//! The purchase ledger: who is allow-listed, and what each buyer was issued.

use crate::address::{address_before, addresses_of, ascending, is_position, locate};
use vstd::prelude::*;

verus! {

/// The identities strictly after `start` in a list; all of them where no
/// start is given.
pub open spec fn listed_after(list: Seq<Seq<char>>, start: Option<Seq<char>>) -> Seq<Seq<char>> {
    match start {
        None => list,
        Some(s) => list.filter(|a: Seq<char>| address_before(s, a)),
    }
}

/// One page of a list: the first `limit` identities strictly after `start`,
/// or all of them where there are fewer.
pub open spec fn page_of(list: Seq<Seq<char>>, start: Option<Seq<char>>, limit: nat) -> Seq<
    Seq<char>,
> {
    let rest = listed_after(list, start);
    if limit < rest.len() {
        rest.take(limit as int)
    } else {
        rest
    }
}

/// The identities of a list that come before `address`.
pub open spec fn listed_before(list: Seq<Seq<char>>, address: Seq<char>) -> Seq<Seq<char>> {
    list.filter(|a: Seq<char>| address_before(a, address))
}

/// A list with `address` on it: the list itself where it is listed
/// already; else the list with `address` put behind the identities that
/// come before it.
pub open spec fn listed_with(list: Seq<Seq<char>>, address: Seq<char>) -> Seq<Seq<char>> {
    if list.contains(address) {
        list
    } else {
        list.insert(listed_before(list, address).len() as int, address)
    }
}

/// A list with every one of `addresses` on it, put there one after the
/// other.
pub open spec fn listed_with_all(list: Seq<Seq<char>>, addresses: Seq<Seq<char>>) -> Seq<
    Seq<char>,
>
    decreases addresses.len(),
{
    if addresses.len() == 0 {
        list
    } else {
        listed_with(listed_with_all(list, addresses.drop_last()), addresses.last())
    }
}

/// In an ascending list the identities before `address` are those below
/// its position.
pub proof fn lemma_listed_before_is_prefix(list: Seq<Seq<char>>, address: Seq<char>, at: int)
    requires
        is_position(list, address, at),
    ensures
        listed_before(list, address) == list.take(at),
    decreases list.len(),
{
    let before = |a: Seq<char>| address_before(a, address);
    if list.len() == 0 {
        assert(list.filter(before) =~= list.take(at)) by {
            reveal(Seq::filter);
        }
    } else {
        let front = list.drop_last();
        assert(list.filter(before) == if before(list.last()) {
            front.filter(before).push(list.last())
        } else {
            front.filter(before)
        }) by {
            reveal(Seq::filter);
        }
        if at == list.len() {
            lemma_listed_before_is_prefix(front, address, at - 1);
            assert(before(list.last()));
            assert(front.take(at - 1).push(list.last()) =~= list.take(at));
        } else {
            lemma_listed_before_is_prefix(front, address, at);
            assert(!before(list.last()));
            assert(front.take(at) =~= list.take(at));
        }
    }
}

/// Putting an identity on an ascending list keeps the list ascending and
/// adds that identity to those listed, and no other; putting it there once
/// more changes nothing.
pub proof fn lemma_listed_with(list: Seq<Seq<char>>, address: Seq<char>)
    requires
        ascending(list),
    ensures
        ascending(listed_with(list, address)),
        listed_with(list, address).to_set() == list.to_set().insert(address),
        forall|a: Seq<char>|
            listed_with(list, address).contains(a) <==> (a == address || list.contains(a)),
        listed_with(listed_with(list, address), address) == listed_with(list, address),
{
    let after = listed_with(list, address);
    if list.contains(address) {
        assert(list.to_set() =~= list.to_set().insert(address));
    } else {
        let at = lemma_position_exists(list, address);
        lemma_listed_before_is_prefix(list, address, at);
        lemma_insert_keeps_ascending(list, address, at);
        lemma_insert_contains(list, address, at);
        assert(after.to_set() =~= list.to_set().insert(address));
    }
}

/// Every ascending list has a position for every identity.
proof fn lemma_position_exists(list: Seq<Seq<char>>, address: Seq<char>) -> (at: int)
    requires
        ascending(list),
    ensures
        is_position(list, address, at),
    decreases list.len(),
{
    if list.len() == 0 {
        0
    } else if address_before(list.last(), address) {
        assert forall|i: int| 0 <= i < list.len() implies address_before(
            #[trigger] list[i],
            address,
        ) by {
            if i < list.len() - 1 {
                crate::address::lemma_address_before_transitive(list[i], list.last(), address);
            }
        }
        list.len() as int
    } else {
        let front = list.drop_last();
        assert(ascending(front));
        let at = lemma_position_exists(front, address);
        assert forall|i: int| at <= i < list.len() implies !address_before(
            #[trigger] list[i],
            address,
        ) by {
            if i < list.len() - 1 {
                assert(front[i] == list[i]);
            }
        }
        assert forall|i: int| 0 <= i < at implies address_before(#[trigger] list[i], address) by {
            assert(front[i] == list[i]);
        }
        at
    }
}

/// What a list holds after an identity was put into it.
proof fn lemma_insert_contains(list: Seq<Seq<char>>, address: Seq<char>, at: int)
    requires
        0 <= at <= list.len(),
    ensures
        forall|a: Seq<char>|
            list.insert(at, address).contains(a) <==> (a == address || list.contains(a)),
{
    let after = list.insert(at, address);
    assert forall|a: Seq<char>| after.contains(a) <==> (a == address || list.contains(a)) by {
        if after.contains(a) {
            let i = choose|i: int| 0 <= i < after.len() && after[i] == a;
            if i < at {
                assert(list[i] == a);
            } else if i > at {
                assert(list[i - 1] == a);
            }
        }
        if list.contains(a) {
            let i = choose|i: int| 0 <= i < list.len() && list[i] == a;
            if i < at {
                assert(after[i] == a);
            } else {
                assert(after[i + 1] == a);
            }
        }
        if a == address {
            assert(after[at] == a);
        }
    }
}

/// In an ascending list the identities after `start` are those from the
/// position at which they begin.
pub proof fn lemma_listed_after_is_suffix(list: Seq<Seq<char>>, start: Seq<char>, first: int)
    requires
        0 <= first <= list.len(),
        forall|i: int| 0 <= i < first ==> !address_before(start, #[trigger] list[i]),
        forall|i: int| first <= i < list.len() ==> address_before(start, #[trigger] list[i]),
    ensures
        listed_after(list, Some(start)) == list.skip(first),
    decreases list.len(),
{
    let after = |a: Seq<char>| address_before(start, a);
    if first == list.len() {
        lemma_none_after(list, start);
        assert(list.skip(first) =~= Seq::<Seq<char>>::empty());
    } else {
        let front = list.drop_last();
        lemma_listed_after_is_suffix(front, start, first);
        assert(after(list.last()));
        assert(list.filter(after) == front.filter(after).push(list.last())) by {
            reveal(Seq::filter);
        }
        assert(front.skip(first).push(list.last()) =~= list.skip(first));
    }
}

proof fn lemma_none_after(list: Seq<Seq<char>>, start: Seq<char>)
    requires
        forall|i: int| 0 <= i < list.len() ==> !address_before(start, #[trigger] list[i]),
    ensures
        listed_after(list, Some(start)) == Seq::<Seq<char>>::empty(),
    decreases list.len(),
{
    reveal(Seq::filter);
    if list.len() > 0 {
        lemma_none_after(list.drop_last(), start);
    }
}

/// The allow-list: the identities that may buy while the list is enforced,
/// kept in ascending order.
#[derive(Debug)]
pub struct AllowList {
    entries: Vec<String>,
}

impl View for AllowList {
    type V = Seq<Seq<char>>;

    /// The listed identities, in ascending order.
    closed spec fn view(&self) -> Seq<Seq<char>> {
        addresses_of(self.entries@)
    }
}

impl AllowList {
    #[verifier::type_invariant]
    spec fn ordered(self) -> bool {
        ascending(addresses_of(self.entries@))
    }

    /// The empty allow-list.
    pub fn new() -> (list: Self)
        ensures
            list@ == Seq::<Seq<char>>::empty(),
    {
        AllowList { entries: Vec::new() }
    }

    /// The number of listed identities.
    pub fn len(&self) -> (count: usize)
        ensures
            count == self@.len(),
            ascending(self@),
    {
        proof {
            use_type_invariant(self);
        }
        self.entries.len()
    }

    /// Whether `address` is listed.
    pub fn contains(&self, address: &str) -> (listed: bool)
        ensures
            listed == self@.contains(address@),
    {
        proof {
            use_type_invariant(self);
        }
        let (_, found) = locate(&self.entries, address);
        found
    }

    /// The list with `address` on it. An address that is listed already
    /// leaves the list as it is.
    pub fn with(self, address: String) -> (list: Self)
        ensures
            list@ == listed_with(self@, address@),
            ascending(list@),
    {
        proof {
            use_type_invariant(&self);
            lemma_listed_with(self@, address@);
        }
        let ghost before = self@;
        let mut entries = self.entries;
        let (at, found) = locate(&entries, address.as_str());
        if !found {
            entries.insert(at, address);
            proof {
                lemma_listed_before_is_prefix(before, address@, at as int);
                assert(addresses_of(entries@) =~= before.insert(at as int, address@));
            }
        }
        AllowList { entries }
    }

    /// One page of the list: the first `limit` identities strictly after
    /// `start_after`, in ascending order.
    pub fn page(&self, start_after: &Option<String>, limit: usize) -> (accounts: Vec<String>)
        ensures
            ascending(self@),
            addresses_of(accounts@) == page_of(
                self@,
                match start_after {
                    Some(s) => Some(s@),
                    None => None,
                },
                limit as nat,
            ),
    {
        proof {
            use_type_invariant(self);
        }
        let ghost list = self@;
        let first = match start_after {
            None => 0,
            Some(s) => {
                let (at, found) = locate(&self.entries, s.as_str());
                let first = if found {
                    at + 1
                } else {
                    at
                };
                proof {
                    lemma_position_splits(list, s@, at as int);
                    lemma_listed_after_is_suffix(list, s@, first as int);
                }
                first
            },
        };
        let ghost rest = list.skip(first as int);
        let mut accounts: Vec<String> = Vec::new();
        let mut next = first;
        while next < self.entries.len() && accounts.len() < limit
            invariant
                list == addresses_of(self.entries@),
                rest == list.skip(first as int),
                first <= next <= self.entries.len(),
                accounts.len() == next - first,
                accounts.len() <= limit,
                addresses_of(accounts@) == rest.take(next - first),
            decreases self.entries.len() - next,
        {
            accounts.push(self.entries[next].clone());
            next = next + 1;
            assert(addresses_of(accounts@) =~= rest.take(next - first));
        }
        proof {
            if limit < rest.len() {
                assert(next - first == limit);
            } else {
                assert(rest.take(next - first) =~= rest);
            }
        }
        accounts
    }
}

/// What a buyer was issued according to a record of purchases: the sequence
/// numbers in the order of issue; none for a buyer without an entry.
pub open spec fn history(mints: Map<Seq<char>, Seq<u64>>, buyer: Seq<char>) -> Seq<u64> {
    if mints.dom().contains(buyer) {
        mints[buyer]
    } else {
        Seq::empty()
    }
}

/// The record of purchases after `buyer` was issued `token`: the token is
/// appended to the buyer's entry, which is created where there was none.
pub open spec fn with_mint(mints: Map<Seq<char>, Seq<u64>>, buyer: Seq<char>, token: u64) -> Map<
    Seq<char>,
    Seq<u64>,
> {
    mints.insert(buyer, history(mints, buyer).push(token))
}

/// The mint history: for each buyer the sequence numbers it was issued.
#[derive(Debug)]
pub struct MintHistory {
    buyers: Vec<String>,
    minted: Vec<Vec<u64>>,
}

spec fn history_map(keys: Seq<Seq<char>>, minted: Seq<Vec<u64>>) -> Map<Seq<char>, Seq<u64>> {
    Map::new(|a: Seq<char>| keys.contains(a), |a: Seq<char>| minted[keys.index_of(a)]@)
}

impl View for MintHistory {
    type V = Map<Seq<char>, Seq<u64>>;

    /// The buyers with an entry, each with what it was issued.
    closed spec fn view(&self) -> Map<Seq<char>, Seq<u64>> {
        history_map(addresses_of(self.buyers@), self.minted@)
    }
}

impl MintHistory {
    #[verifier::type_invariant]
    spec fn well_formed(self) -> bool {
        &&& ascending(addresses_of(self.buyers@))
        &&& self.buyers@.len() == self.minted@.len()
    }

    /// The empty history.
    pub fn new() -> (mints: Self)
        ensures
            mints@ == Map::<Seq<char>, Seq<u64>>::empty(),
    {
        MintHistory { buyers: Vec::new(), minted: Vec::new() }
    }

    /// The number of items that `buyer` was issued.
    pub fn count(&self, buyer: &str) -> (count: usize)
        ensures
            count == history(self@, buyer@).len(),
    {
        proof {
            use_type_invariant(self);
        }
        let (at, found) = locate(&self.buyers, buyer);
        if found {
            proof {
                lemma_index_unique(addresses_of(self.buyers@), at as int);
            }
            self.minted[at].len()
        } else {
            0
        }
    }

    /// The sequence numbers that `buyer` was issued, in the order of issue.
    pub fn tokens(&self, buyer: &str) -> (tokens: Vec<u64>)
        ensures
            tokens@ == history(self@, buyer@),
    {
        proof {
            use_type_invariant(self);
        }
        let (at, found) = locate(&self.buyers, buyer);
        if found {
            proof {
                lemma_index_unique(addresses_of(self.buyers@), at as int);
            }
            self.minted[at].clone()
        } else {
            Vec::new()
        }
    }

    /// The history after `buyer` was issued `token`.
    pub fn with(self, buyer: &String, token: u64) -> (mints: Self)
        ensures
            mints@ == with_mint(self@, buyer@, token),
    {
        proof {
            use_type_invariant(&self);
        }
        let ghost keys = addresses_of(self.buyers@);
        let ghost lists = self.minted@;
        let ghost before = self@;
        let mut buyers = self.buyers;
        let mut minted = self.minted;
        let (at, found) = locate(&buyers, buyer.as_str());
        if found {
            let mut tokens = minted.remove(at);
            tokens.push(token);
            minted.insert(at, tokens);
            proof {
                lemma_index_unique(keys, at as int);
                assert forall|a: Seq<char>| keys.contains(a) implies #[trigger] history_map(
                    keys,
                    minted@,
                )[a] == with_mint(before, buyer@, token)[a] by {
                    let i = keys.index_of(a);
                    lemma_index_unique(keys, i);
                    if i < at {
                        assert(minted@[i] == lists[i]);
                    } else if i > at {
                        assert(minted@[i] == lists[i]);
                    }
                }
                assert(history_map(keys, minted@) =~= with_mint(before, buyer@, token));
            }
        } else {
            let mut tokens: Vec<u64> = Vec::new();
            tokens.push(token);
            buyers.insert(at, buyer.clone());
            minted.insert(at, tokens);
            proof {
                let after = addresses_of(buyers@);
                assert(after =~= keys.insert(at as int, buyer@));
                lemma_insert_keeps_ascending(keys, buyer@, at as int);
                lemma_index_unique(after, at as int);
                assert(tokens@ =~= Seq::<u64>::empty().push(token));
                lemma_insert_contains(keys, buyer@, at as int);
                assert forall|a: Seq<char>| keys.contains(a) implies #[trigger] history_map(
                    after,
                    minted@,
                )[a] == before[a] by {
                    let i = keys.index_of(a);
                    lemma_index_unique(keys, i);
                    if i < at {
                        assert(after[i] == a);
                        lemma_index_unique(after, i);
                        assert(minted@[i] == lists[i]);
                    } else {
                        assert(after[i + 1] == a);
                        lemma_index_unique(after, i + 1);
                        assert(minted@[i + 1] == lists[i]);
                    }
                }
                assert(history_map(after, minted@) =~= with_mint(before, buyer@, token));
            }
        }
        MintHistory { buyers, minted }
    }
}

/// The purchase ledger: the mint history and the allow-list.
#[derive(Debug)]
pub struct PurchaseLedger {
    pub mints: MintHistory,
    pub allow_list: AllowList,
}

impl PurchaseLedger {
    /// The ledger of a sale in which nothing was bought and nobody is listed.
    pub fn new() -> (ledger: Self)
        ensures
            ledger.mints@ == Map::<Seq<char>, Seq<u64>>::empty(),
            ledger.allow_list@ == Seq::<Seq<char>>::empty(),
    {
        PurchaseLedger { mints: MintHistory::new(), allow_list: AllowList::new() }
    }

    /// Records that `buyer` was issued `token`.
    pub fn record_mint(&mut self, buyer: &String, token: u64)
        ensures
            final(self).mints@ == with_mint(old(self).mints@, buyer@, token),
            final(self).allow_list@ == old(self).allow_list@,
    {
        let mut mints = MintHistory::new();
        std::mem::swap(&mut mints, &mut self.mints);
        self.mints = mints.with(buyer, token);
    }

    /// Puts `address` on the allow-list.
    pub fn allow(&mut self, address: String)
        ensures
            final(self).allow_list@ == listed_with(old(self).allow_list@, address@),
            ascending(final(self).allow_list@),
            final(self).mints@ == old(self).mints@,
    {
        let mut list = AllowList::new();
        std::mem::swap(&mut list, &mut self.allow_list);
        self.allow_list = list.with(address);
    }
}

/// In an ascending list every identity stands at one position only.
proof fn lemma_index_unique(list: Seq<Seq<char>>, at: int)
    requires
        ascending(list),
        0 <= at < list.len(),
    ensures
        list.contains(list[at]),
        list.index_of(list[at]) == at,
{
    let found = list.index_of(list[at]);
    crate::address::lemma_address_order_irreflexive(list[at]);
    if found < at {
        assert(address_before(list[found], list[at]));
    } else if found > at {
        assert(address_before(list[at], list[found]));
    }
}

/// Putting an identity that is not listed at its position keeps a list
/// ascending.
proof fn lemma_insert_keeps_ascending(list: Seq<Seq<char>>, address: Seq<char>, at: int)
    requires
        ascending(list),
        is_position(list, address, at),
        !list.contains(address),
    ensures
        ascending(list.insert(at, address)),
{
    let after = list.insert(at, address);
    lemma_position_splits(list, address, at);
    assert forall|i: int, j: int| 0 <= i < j < after.len() implies address_before(
        after[i],
        after[j],
    ) by {
        if j < at {
            assert(after[i] == list[i] && after[j] == list[j]);
        } else if j == at {
            assert(after[i] == list[i]);
        } else if i < at {
            assert(after[i] == list[i] && after[j] == list[j - 1]);
        } else if i == at {
            assert(after[j] == list[j - 1]);
        } else {
            assert(after[i] == list[i - 1] && after[j] == list[j - 1]);
        }
    }
}

/// At the position of `address` an ascending list splits into the entries
/// not after it and those after it; where `address` itself is listed, the
/// second part begins one entry later.
proof fn lemma_position_splits(list: Seq<Seq<char>>, address: Seq<char>, at: int)
    requires
        ascending(list),
        is_position(list, address, at),
    ensures
        forall|i: int| 0 <= i < at ==> !address_before(address, #[trigger] list[i]),
        forall|i: int|
            at <= i < list.len() && list[i] != address ==> address_before(
                address,
                #[trigger] list[i],
            ),
        list.contains(address) ==> at < list.len() && list[at] == address,
        forall|i: int| at < i < list.len() ==> address_before(address, #[trigger] list[i]),
{
    assert forall|i: int| 0 <= i < at implies !address_before(address, #[trigger] list[i]) by {
        crate::address::lemma_address_before_asymmetric(list[i], address);
    }
    assert forall|i: int| at <= i < list.len() && list[i] != address implies address_before(
        address,
        #[trigger] list[i],
    ) by {
        crate::address::lemma_address_order_total(list[i], address);
    }
    if list.contains(address) {
        let k = choose|k: int| 0 <= k < list.len() && list[k] == address;
        crate::address::lemma_address_order_irreflexive(address);
        if k > at {
            crate::address::lemma_address_before_asymmetric(list[at], list[k]);
            crate::address::lemma_address_order_total(list[at], address);
        }
    }
    assert forall|i: int| at < i < list.len() implies address_before(address, #[trigger] list[i]) by {
        if list[i] == address {
            crate::address::lemma_address_order_irreflexive(address);
            assert(address_before(list[at], list[i]));
        }
    }
}

} // verus!
