//! The sum of the amounts that a finite table holds, and how it changes when
//! an entry is written.

use vstd::prelude::*;

verus! {

/// The sum of all amounts in `m`.
pub open spec fn total<K>(m: Map<K, u128>) -> nat
    decreases m.dom().len(),
    when m.dom().finite()
{
    if m.dom().len() == 0 {
        0
    } else {
        let k = m.dom().choose();
        m[k] as nat + total(m.remove(k))
    }
}

/// An empty table sums to zero.
pub proof fn lemma_total_empty<K>(m: Map<K, u128>)
    requires
        m.dom() == Set::<K>::empty(),
    ensures
        total(m) == 0,
{
}

/// Any entry can be split off the sum.
pub proof fn lemma_total_remove<K>(m: Map<K, u128>, key: K)
    requires
        m.dom().finite(),
        m.contains_key(key),
    ensures
        total(m) == m[key] + total(m.remove(key)),
    decreases m.dom().len(),
{
    let c = m.dom().choose();
    if c != key {
        lemma_total_remove(m.remove(c), key);
        lemma_total_remove(m.remove(key), c);
        assert(m.remove(c).remove(key) =~= m.remove(key).remove(c));
    }
}

/// Writing an entry replaces its share of the sum.
pub proof fn lemma_total_insert<K>(m: Map<K, u128>, key: K, amount: u128)
    requires
        m.dom().finite(),
    ensures
        total(m.insert(key, amount)) == amount + total(m.remove(key)),
{
    lemma_total_remove(m.insert(key, amount), key);
    assert(m.insert(key, amount).remove(key) =~= m.remove(key));
}

/// Removing a key that is absent changes nothing.
pub proof fn lemma_remove_absent<K>(m: Map<K, u128>, key: K)
    requires
        !m.contains_key(key),
    ensures
        m.remove(key) == m,
{
    assert(m.remove(key) =~= m);
}

/// No entry exceeds the sum.
pub proof fn lemma_entry_le_total<K>(m: Map<K, u128>, key: K)
    requires
        m.dom().finite(),
        m.contains_key(key),
    ensures
        m[key] <= total(m),
{
    lemma_total_remove(m, key);
}

} // verus!
