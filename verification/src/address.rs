//! The order of identities: that of their bytes, as storage keys are ordered.

use vstd::prelude::*;
use vstd::string::*;
use vstd::utf8::*;

verus! {

/// `a` comes before `b` because of position `k`: the two agree on every
/// position below `k`, and there `a` ends while `b` goes on, or holds the
/// smaller byte.
pub open spec fn precedes_at(a: Seq<u8>, b: Seq<u8>, k: int) -> bool {
    &&& 0 <= k <= a.len()
    &&& k < b.len()
    &&& forall|j: int| 0 <= j < k ==> a[j] == b[j]
    &&& (k == a.len() || a[k] < b[k])
}

/// The lexicographic order of byte strings.
pub open spec fn bytes_before(a: Seq<u8>, b: Seq<u8>) -> bool {
    exists|k: int| precedes_at(a, b, k)
}

/// The order of identities: the lexicographic order of their UTF-8 bytes.
pub open spec fn address_before(a: Seq<char>, b: Seq<char>) -> bool {
    bytes_before(encode_utf8(a), encode_utf8(b))
}

/// Whether a list of identities is strictly ascending.
pub open spec fn ascending(list: Seq<Seq<char>>) -> bool {
    forall|i: int, j: int| 0 <= i < j < list.len() ==> address_before(list[i], list[j])
}

/// No byte string comes before itself, and no two come before each other.
pub proof fn lemma_bytes_before_asymmetric(a: Seq<u8>, b: Seq<u8>)
    requires
        bytes_before(a, b),
    ensures
        !bytes_before(b, a),
        a != b,
{
    let k = choose|k: int| precedes_at(a, b, k);
    if bytes_before(b, a) {
        let m = choose|m: int| precedes_at(b, a, m);
        assert(k != m);
    }
}

/// The order of byte strings is transitive.
pub proof fn lemma_bytes_before_transitive(a: Seq<u8>, b: Seq<u8>, c: Seq<u8>)
    requires
        bytes_before(a, b),
        bytes_before(b, c),
    ensures
        bytes_before(a, c),
{
    let k = choose|k: int| precedes_at(a, b, k);
    let m = choose|m: int| precedes_at(b, c, m);
    let n = if k <= m {
        k
    } else {
        m
    };
    assert(precedes_at(a, c, n));
}

/// Two identities with the same bytes are the same identity.
pub proof fn lemma_same_bytes_same_address(a: Seq<char>, b: Seq<char>)
    requires
        encode_utf8(a) == encode_utf8(b),
    ensures
        a == b,
{
    encode_utf8_decode_utf8(a);
    encode_utf8_decode_utf8(b);
}

/// No identity comes before itself, and no two come before each other.
pub proof fn lemma_address_before_asymmetric(a: Seq<char>, b: Seq<char>)
    requires
        address_before(a, b),
    ensures
        !address_before(b, a),
        a != b,
{
}

/// The order of identities is transitive.
pub proof fn lemma_address_before_transitive(a: Seq<char>, b: Seq<char>, c: Seq<char>)
    requires
        address_before(a, b),
        address_before(b, c),
    ensures
        address_before(a, c),
{
    lemma_bytes_before_transitive(encode_utf8(a), encode_utf8(b), encode_utf8(c));
}

/// How one identity stands to another in the order.
#[derive(Clone, Copy, Debug, PartialEq, Eq, Structural)]
pub enum Rank {
    Before,
    Same,
    After,
}

/// What `rank` returns for two identities.
pub open spec fn rank_of(a: Seq<char>, b: Seq<char>) -> Rank {
    if address_before(a, b) {
        Rank::Before
    } else if a == b {
        Rank::Same
    } else {
        Rank::After
    }
}

/// Of two different identities one comes before the other.
pub proof fn lemma_address_order_total(a: Seq<char>, b: Seq<char>)
    ensures
        address_before(a, b) || a == b || address_before(b, a),
{
    let x = encode_utf8(a);
    let y = encode_utf8(b);
    if x == y {
        lemma_same_bytes_same_address(a, b);
    } else {
        lemma_bytes_differ(x, y, 0);
    }
}

proof fn lemma_bytes_differ(x: Seq<u8>, y: Seq<u8>, k: int)
    requires
        x != y,
        0 <= k <= x.len(),
        k <= y.len(),
        forall|j: int| 0 <= j < k ==> x[j] == y[j],
    ensures
        bytes_before(x, y) || bytes_before(y, x),
    decreases x.len() - k,
{
    if k == x.len() {
        if k == y.len() {
            assert(x =~= y);
        } else {
            assert(precedes_at(x, y, k));
        }
    } else if k == y.len() {
        assert(precedes_at(y, x, k));
    } else if x[k] < y[k] {
        assert(precedes_at(x, y, k));
    } else if y[k] < x[k] {
        assert(precedes_at(y, x, k));
    } else {
        lemma_bytes_differ(x, y, k + 1);
    }
}

/// Compares two identities by their bytes.
pub fn rank(a: &str, b: &str) -> (r: Rank)
    ensures
        r == rank_of(a@, b@),
{
    let x = a.as_bytes();
    let y = b.as_bytes();
    let mut k: usize = 0;
    while k < x.len() && k < y.len() && x[k] == y[k]
        invariant
            k <= x.len(),
            k <= y.len(),
            forall|j: int| 0 <= j < k ==> x@[j] == y@[j],
        decreases x.len() - k,
    {
        k = k + 1;
    }
    if k == x.len() && k == y.len() {
        proof {
            assert(x@ =~= y@);
            lemma_same_bytes_same_address(a@, b@);
        }
        Rank::Same
    } else if k == x.len() || (k < y.len() && x[k] < y[k]) {
        proof {
            assert(precedes_at(x@, y@, k as int));
        }
        Rank::Before
    } else {
        Rank::After
    }
}

/// The identities that a list of strings holds.
pub open spec fn addresses_of(list: Seq<String>) -> Seq<Seq<char>> {
    Seq::new(list.len(), |i: int| list[i]@)
}

/// Where `address` stands in an ascending list: the position of the first
/// entry that does not come before it.
pub open spec fn is_position(list: Seq<Seq<char>>, address: Seq<char>, at: int) -> bool {
    &&& 0 <= at <= list.len()
    &&& forall|i: int| 0 <= i < at ==> address_before(#[trigger] list[i], address)
    &&& forall|i: int| at <= i < list.len() ==> !address_before(#[trigger] list[i], address)
}

/// Finds where `address` stands in an ascending list, and whether the entry
/// there is `address` itself.
pub(crate) fn locate(list: &Vec<String>, address: &str) -> (found: (usize, bool))
    requires
        ascending(addresses_of(list@)),
    ensures
        is_position(addresses_of(list@), address@, found.0 as int),
        found.1 <==> addresses_of(list@).contains(address@),
        found.1 ==> found.0 < list.len() && list@[found.0 as int]@ == address@,
{
    let ghost keys = addresses_of(list@);
    let mut low: usize = 0;
    let mut high: usize = list.len();
    while low < high
        invariant
            keys == addresses_of(list@),
            ascending(keys),
            low <= high <= list.len(),
            forall|i: int| 0 <= i < low ==> address_before(#[trigger] keys[i], address@),
            forall|i: int| high <= i < keys.len() ==> address_before(address@, #[trigger] keys[i]),
        decreases high - low,
    {
        let mid = low + (high - low) / 2;
        match rank(list[mid].as_str(), address) {
            Rank::Before => {
                proof {
                    assert forall|i: int| 0 <= i < mid + 1 implies address_before(
                        #[trigger] keys[i],
                        address@,
                    ) by {
                        if i < mid {
                            lemma_address_before_transitive(keys[i], keys[mid as int], address@);
                        }
                    }
                }
                low = mid + 1;
            },
            Rank::Same => {
                proof {
                    assert(keys[mid as int] == address@);
                    assert forall|i: int| mid <= i < keys.len() implies !address_before(
                        #[trigger] keys[i],
                        address@,
                    ) by {
                        if i > mid {
                            lemma_address_before_asymmetric(keys[mid as int], keys[i]);
                        }
                    }
                }
                return (mid, true);
            },
            Rank::After => {
                proof {
                    lemma_address_order_total(keys[mid as int], address@);
                    assert forall|i: int| mid <= i < keys.len() implies address_before(
                        address@,
                        #[trigger] keys[i],
                    ) by {
                        if i > mid {
                            lemma_address_before_transitive(address@, keys[mid as int], keys[i]);
                        }
                    }
                }
                high = mid;
            },
        }
    }
    (low, false)
}

/// No identity comes before itself.
pub proof fn lemma_address_order_irreflexive(a: Seq<char>)
    ensures
        !address_before(a, a),
{
}

} // verus!
