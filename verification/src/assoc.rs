//! Association lists: a sequence of keys without repetition, beside a sequence
//! of values of the same length, read as a map.

use vstd::prelude::*;

verus! {

/// The map that sends each key of `ks` to the value at its position in `vs`.
pub open spec fn assoc<K, V>(ks: Seq<K>, vs: Seq<V>) -> Map<K, V> {
    Map::new(|k: K| ks.contains(k), |k: K| vs[ks.index_of(k)])
}

/// In a list without repetition a key is found at its own position.
pub proof fn lemma_assoc_lookup<K, V>(ks: Seq<K>, vs: Seq<V>, i: int)
    requires
        ks.no_duplicates(),
        0 <= i < ks.len(),
    ensures
        ks.index_of(ks[i]) == i,
        assoc(ks, vs).contains_key(ks[i]),
        assoc(ks, vs)[ks[i]] == vs[i],
{
    let j = ks.index_of(ks[i]);
    assert(ks.contains(ks[i]));
    assert(0 <= j < ks.len() && ks[j] == ks[i]);
}

/// A key that the map holds stands at some position of the list.
pub proof fn lemma_assoc_position<K, V>(ks: Seq<K>, vs: Seq<V>, k: K) -> (i: int)
    requires
        assoc(ks, vs).contains_key(k),
    ensures
        0 <= i < ks.len(),
        ks[i] == k,
        i == ks.index_of(k),
        assoc(ks, vs)[k] == vs[i],
{
    ks.index_of(k)
}

/// Appending a new key with its value inserts the pair into the map.
pub proof fn lemma_assoc_push<K, V>(ks: Seq<K>, vs: Seq<V>, k: K, v: V)
    requires
        ks.no_duplicates(),
        ks.len() == vs.len(),
        !ks.contains(k),
    ensures
        ks.push(k).no_duplicates(),
        assoc(ks.push(k), vs.push(v)) == assoc(ks, vs).insert(k, v),
{
    let ks2 = ks.push(k);
    let vs2 = vs.push(v);
    assert forall|i: int, j: int| 0 <= i < ks2.len() && 0 <= j < ks2.len() && i != j implies ks2[i]
        != ks2[j] by {
        if i < ks.len() {
            assert(ks.contains(ks[i]));
        }
        if j < ks.len() {
            assert(ks.contains(ks[j]));
        }
    }
    assert forall|x: K| #[trigger] assoc(ks2, vs2).contains_key(x) <==> assoc(ks, vs).insert(
        k,
        v,
    ).contains_key(x) by {
        if ks2.contains(x) {
            let i = ks2.index_of(x);
            if i < ks.len() {
                assert(ks[i] == x);
            }
        }
        if ks.contains(x) {
            let i = ks.index_of(x);
            assert(ks2[i] == x);
        }
        if x == k {
            assert(ks2[ks.len() as int] == k);
        }
    }
    assert forall|x: K| #[trigger] assoc(ks2, vs2).contains_key(x) implies assoc(ks2, vs2)[x]
        == assoc(ks, vs).insert(k, v)[x] by {
        let i = ks2.index_of(x);
        lemma_assoc_lookup(ks2, vs2, i);
        if i < ks.len() {
            lemma_assoc_lookup(ks, vs, i);
        }
    }
    assert(assoc(ks2, vs2) =~= assoc(ks, vs).insert(k, v));
}

/// Taking out the pair at one position removes its key from the map.
pub proof fn lemma_assoc_remove<K, V>(ks: Seq<K>, vs: Seq<V>, i: int)
    requires
        ks.no_duplicates(),
        ks.len() == vs.len(),
        0 <= i < ks.len(),
    ensures
        ks.remove(i).no_duplicates(),
        assoc(ks.remove(i), vs.remove(i)) == assoc(ks, vs).remove(ks[i]),
{
    let ks2 = ks.remove(i);
    let vs2 = vs.remove(i);
    assert forall|a: int, b: int| 0 <= a < ks2.len() && 0 <= b < ks2.len() && a != b implies ks2[a]
        != ks2[b] by {
        let a1 = if a < i { a } else { a + 1 };
        let b1 = if b < i { b } else { b + 1 };
        assert(ks2[a] == ks[a1] && ks2[b] == ks[b1]);
    }
    assert forall|x: K| #[trigger] assoc(ks2, vs2).contains_key(x) <==> assoc(ks, vs).remove(
        ks[i],
    ).contains_key(x) by {
        if ks2.contains(x) {
            let a = ks2.index_of(x);
            let a1 = if a < i { a } else { a + 1 };
            assert(ks[a1] == x);
        }
        if ks.contains(x) && x != ks[i] {
            let a = ks.index_of(x);
            let a2 = if a < i { a } else { a - 1 };
            assert(ks2[a2] == x);
        }
    }
    assert forall|x: K| #[trigger] assoc(ks2, vs2).contains_key(x) implies assoc(ks2, vs2)[x]
        == assoc(ks, vs).remove(ks[i])[x] by {
        let a = ks2.index_of(x);
        let a1 = if a < i { a } else { a + 1 };
        lemma_assoc_lookup(ks2, vs2, a);
        lemma_assoc_lookup(ks, vs, a1);
    }
    assert(assoc(ks2, vs2) =~= assoc(ks, vs).remove(ks[i]));
}

/// Replacing the value at one position replaces it in the map.
pub proof fn lemma_assoc_update<K, V>(ks: Seq<K>, vs: Seq<V>, i: int, v: V)
    requires
        ks.no_duplicates(),
        ks.len() == vs.len(),
        0 <= i < ks.len(),
    ensures
        assoc(ks, vs.update(i, v)) == assoc(ks, vs).insert(ks[i], v),
{
    let vs2 = vs.update(i, v);
    assert(ks.contains(ks[i]));
    assert forall|x: K| #[trigger] assoc(ks, vs2).contains_key(x) implies assoc(ks, vs2)[x]
        == assoc(ks, vs).insert(ks[i], v)[x] by {
        let a = ks.index_of(x);
        lemma_assoc_lookup(ks, vs2, a);
        lemma_assoc_lookup(ks, vs, a);
    }
    assert(assoc(ks, vs2) =~= assoc(ks, vs).insert(ks[i], v));
}

} // verus!
