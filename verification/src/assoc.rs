//! Association lists: the finite maps of this library, as sequences of (key, value) pairs.
use vstd::prelude::*;

verus! {

/// The index of the first pair of `m` with key `k`.
pub open spec fn first_key_index<K, V>(m: Seq<(K, V)>, k: K) -> Option<int>
    decreases m.len(),
{
    if m.len() == 0 {
        None
    } else {
        match first_key_index(m.drop_last(), k) {
            Some(i) => Some(i),
            None => if m.last().0 == k {
                Some(m.len() - 1)
            } else {
                None
            },
        }
    }
}

pub proof fn lemma_first_key_index<K, V>(m: Seq<(K, V)>, k: K)
    ensures
        match first_key_index(m, k) {
            Some(i) => 0 <= i < m.len() && m[i].0 == k && forall|j: int|
                0 <= j < i ==> (#[trigger] m[j]).0 != k,
            None => forall|j: int| 0 <= j < m.len() ==> (#[trigger] m[j]).0 != k,
        },
    decreases m.len(),
{
    if m.len() > 0 {
        let prev = m.drop_last();
        lemma_first_key_index(prev, k);
        assert forall|j: int| 0 <= j < prev.len() implies #[trigger] m[j] == prev[j] by {}
    }
}

/// The value of the first pair with key `k`.
pub open spec fn assoc_get<K, V>(m: Seq<(K, V)>, k: K) -> Option<V> {
    match first_key_index(m, k) {
        Some(i) => Some(m[i].1),
        None => None,
    }
}

/// The list with `k` set to `v`, as `HashMap::insert` sets a map: in place when the key is
/// there, else at the end.
pub open spec fn assoc_set<K, V>(m: Seq<(K, V)>, k: K, v: V) -> Seq<(K, V)> {
    match first_key_index(m, k) {
        Some(i) => m.update(i, (k, v)),
        None => m.push((k, v)),
    }
}

/// Whether no key occurs twice.
pub open spec fn keys_distinct<K, V>(m: Seq<(K, V)>) -> bool {
    forall|i: int, j: int| 0 <= i < j < m.len() ==> (#[trigger] m[i]).0 != (#[trigger] m[j]).0
}

/// Setting a key keeps the keys distinct, and reading the key back gives the value set.
pub proof fn law_assoc_set_get<K, V>(m: Seq<(K, V)>, k: K, v: V, other: K)
    requires
        keys_distinct(m),
    ensures
        keys_distinct(assoc_set(m, k, v)),
        assoc_get(assoc_set(m, k, v), k) == Some(v),
        other != k ==> assoc_get(assoc_set(m, k, v), other) == assoc_get(m, other),
{
    lemma_first_key_index(m, k);
    let r = assoc_set(m, k, v);
    lemma_first_key_index(r, k);
    lemma_first_key_index(m, other);
    lemma_first_key_index(r, other);
    assert forall|i: int, j: int| 0 <= i < j < r.len() implies (#[trigger] r[i]).0 != (
    #[trigger] r[j]).0 by {
        if first_key_index(m, k) is None {
            if j == m.len() {
                assert(m[i].0 != k);
            } else {
                assert(r[i] == m[i] && r[j] == m[j]);
            }
        }
    }
    match first_key_index(m, k) {
        Some(i) => {
            assert(r[i].0 == k);
            assert(forall|j: int| 0 <= j < i ==> r[j] == m[j]);
            let i2 = first_key_index(r, k)->0;
            assert(i2 == i);
            let o1 = first_key_index(m, other);
            let o2 = first_key_index(r, other);
            if other != k {
                assert(forall|j: int| 0 <= j < m.len() && j != i ==> r[j] == m[j]);
                if o1 is Some {
                    let a = o1->0;
                    assert(a != i);
                    assert(r[a].0 == other);
                    assert(o2 == o1);
                } else {
                    assert(forall|j: int| 0 <= j < r.len() ==> (#[trigger] r[j]).0 != other);
                    assert(o2 is None);
                }
            }
        },
        None => {
            assert(r[m.len() as int].0 == k);
            assert(forall|j: int| 0 <= j < m.len() ==> r[j] == m[j]);
            assert(first_key_index(r, k) == Some(m.len() as int));
            if other != k {
                let o1 = first_key_index(m, other);
                if o1 is Some {
                    let a = o1->0;
                    assert(r[a].0 == other);
                    assert(first_key_index(r, other) == o1);
                } else {
                    assert(forall|j: int| 0 <= j < r.len() ==> (#[trigger] r[j]).0 != other);
                }
            }
        },
    }
}

} // verus!
