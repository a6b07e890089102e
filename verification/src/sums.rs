//! The sum of the stakes that a ledger holds, and how it changes with the ledger.

use vstd::prelude::*;

use crate::types::Address;

verus! {

/// The sum of the values of a finite map from addresses to integers.
pub open spec fn total_of(m: Map<Address, int>) -> int
    decreases m.dom().len(),
    when m.dom().finite()
{
    if m.dom().len() == 0 {
        0
    } else {
        let k = m.dom().choose();
        m[k] + total_of(m.remove(k))
    }
}

/// What a ledger holds for an address: a missing entry reads as zero.
pub open spec fn stake_in(m: Map<Address, int>, a: Address) -> int {
    if m.contains_key(a) {
        m[a]
    } else {
        0
    }
}

/// Whether no entry of the ledger is negative.
pub open spec fn non_negative(m: Map<Address, int>) -> bool {
    forall|a: Address| m.contains_key(a) ==> m[a] >= 0
}

/// The sum of a ledger is the value of any one entry plus the sum of the rest.
pub proof fn lemma_total_split(m: Map<Address, int>, a: Address)
    requires
        m.dom().finite(),
        m.contains_key(a),
    ensures
        total_of(m) == m[a] + total_of(m.remove(a)),
    decreases m.dom().len(),
{
    let k = m.dom().choose();
    if k != a {
        let rest = m.remove(k);
        assert(rest.contains_key(a));
        lemma_total_split(rest, a);
        let other = m.remove(a);
        assert(other.contains_key(k));
        lemma_total_split(other, k);
        assert(rest.remove(a) =~= other.remove(k));
    }
}

/// The sum of the empty ledger is zero.
pub proof fn lemma_total_empty()
    ensures
        total_of(Map::<Address, int>::empty()) == 0,
{
    assert(Map::<Address, int>::empty().dom() =~= Set::<Address>::empty());
}

/// Writing an entry changes the sum by the difference between the new value
/// and what the ledger held for the address.
pub proof fn lemma_total_insert(m: Map<Address, int>, a: Address, v: int)
    requires
        m.dom().finite(),
    ensures
        total_of(m.insert(a, v)) == total_of(m) - stake_in(m, a) + v,
{
    let n = m.insert(a, v);
    lemma_total_split(n, a);
    if m.contains_key(a) {
        lemma_total_split(m, a);
        assert(n.remove(a) =~= m.remove(a));
    } else {
        assert(n.remove(a) =~= m);
    }
}

/// The sum of a ledger without negative entries is not negative.
pub proof fn lemma_total_non_negative(m: Map<Address, int>)
    requires
        m.dom().finite(),
        non_negative(m),
    ensures
        total_of(m) >= 0,
    decreases m.dom().len(),
{
    if m.dom().len() != 0 {
        let k = m.dom().choose();
        lemma_total_non_negative(m.remove(k));
    }
}

/// In a ledger without negative entries no address holds more than the sum.
pub proof fn lemma_stake_at_most_total(m: Map<Address, int>, a: Address)
    requires
        m.dom().finite(),
        non_negative(m),
    ensures
        0 <= stake_in(m, a) <= total_of(m),
{
    if m.contains_key(a) {
        lemma_total_split(m, a);
        lemma_total_non_negative(m.remove(a));
    } else {
        lemma_total_non_negative(m);
    }
}

} // verus!
