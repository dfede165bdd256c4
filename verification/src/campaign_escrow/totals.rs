//! Sums over the entries of a map.
use vstd::prelude::*;

verus! {

/// The sum of the weights of a map's entries.
pub open spec fn total<K, V>(m: Map<K, V>, weight: spec_fn(K, V) -> int) -> int
    decreases m.dom().len(),
{
    if m.dom().finite() && m.dom().len() > 0 {
        let key = m.dom().choose();
        proof {
            assert(m.remove(key).dom() =~= m.dom().remove(key));
        }
        weight(key, m[key]) + total(m.remove(key), weight)
    } else {
        0
    }
}

/// Any entry can be taken out of a sum first.
pub proof fn lemma_total_remove<K, V>(m: Map<K, V>, weight: spec_fn(K, V) -> int, key: K)
    requires
        m.dom().finite(),
        m.contains_key(key),
    ensures
        total(m, weight) == weight(key, m[key]) + total(m.remove(key), weight),
    decreases m.dom().len(),
{
    let first = m.dom().choose();
    assert(m.remove(first).dom() =~= m.dom().remove(first));
    assert(m.remove(key).dom() =~= m.dom().remove(key));
    if first != key {
        lemma_total_remove(m.remove(first), weight, key);
        lemma_total_remove(m.remove(key), weight, first);
        assert(m.remove(first).remove(key) =~= m.remove(key).remove(first));
    }
}

/// Writing an entry replaces its weight in the sum.
pub proof fn lemma_total_insert<K, V>(m: Map<K, V>, weight: spec_fn(K, V) -> int, key: K, value: V)
    requires
        m.dom().finite(),
    ensures
        m.insert(key, value).dom().finite(),
        total(m.insert(key, value), weight) == total(m, weight) + weight(key, value) - (
        if m.contains_key(key) {
            weight(key, m[key])
        } else {
            0
        }),
{
    let n = m.insert(key, value);
    lemma_total_remove(n, weight, key);
    assert(n.remove(key) =~= m.remove(key));
    if m.contains_key(key) {
        lemma_total_remove(m, weight, key);
    } else {
        assert(m.remove(key) =~= m);
    }
}

/// A sum of weights that are not negative is at least each of them.
pub proof fn lemma_total_at_least<K, V>(m: Map<K, V>, weight: spec_fn(K, V) -> int)
    requires
        m.dom().finite(),
        forall|key: K| #[trigger] m.contains_key(key) ==> weight(key, m[key]) >= 0,
    ensures
        total(m, weight) >= 0,
        forall|key: K| #[trigger]
            m.contains_key(key) ==> weight(key, m[key]) <= total(m, weight),
    decreases m.dom().len(),
{
    assert forall|key: K| #[trigger] m.contains_key(key) implies weight(key, m[key]) <= total(
        m,
        weight,
    ) by {
        lemma_total_remove(m, weight, key);
        assert(m.remove(key).dom() =~= m.dom().remove(key));
        lemma_total_at_least(m.remove(key), weight);
    }
    if m.dom().len() > 0 {
        let key = m.dom().choose();
        assert(m.contains_key(key));
        assert(weight(key, m[key]) <= total(m, weight));
    }
}

} // verus!
