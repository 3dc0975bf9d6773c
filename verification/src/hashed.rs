//! Hash maps that are keyed by a number.

use std::collections::HashMap;
use vstd::prelude::*;
use vstd::std_specs::hash::spec_keys_iter;
use vstd::std_specs::iter::IteratorSpec;

verus! {

broadcast use vstd::std_specs::hash::group_hash_axioms;

/// The keys of a map, each once, in the order in which the map hands them out.
pub fn keys_of<V>(m: &HashMap<u64, V>) -> (r: Vec<u64>)
    ensures
        r@.no_duplicates(),
        r@.to_set() == m@.dom(),
{
    let mut out: Vec<u64> = Vec::new();
    let ghost all = spec_keys_iter(m).remaining();
    for k in it: m.keys()
        invariant
            it.seq() == all,
            all.no_duplicates(),
            all.unref().to_set() == m@.dom(),
            out@.len() == it.index(),
            forall|j: int| 0 <= j < out@.len() ==> out@[j] == *all[j],
    {
        out.push(*k);
    }
    assert(out@ =~= all.unref());
    assert forall|i: int, j: int|
        0 <= i < out@.len() && 0 <= j < out@.len() && i != j implies out@[i] != out@[j] by {
        assert(all[i] != all[j]);
    }
    out
}

} // verus!
