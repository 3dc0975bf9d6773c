//! A set of entry keys: the entries that changed since they were last stored.

use vstd::prelude::*;
use crate::entries::Key;
use crate::text::str_eq;

verus! {

/// The keys that a list of pairs of texts holds, in order.
pub open spec fn key_views(v: Seq<(String, String)>) -> Seq<Key> {
    Seq::new(v.len(), |i: int| (v[i].0@, v[i].1@))
}

/// Whether a list of keys holds the key of the given registry and name.
pub fn keys_contain(keys: &Vec<(String, String)>, registry: &str, name: &str) -> (r: bool)
    ensures
        r == key_views(keys@).contains((registry@, name@)),
{
    let mut i: usize = 0;
    while i < keys.len()
        invariant
            i <= keys@.len(),
            forall|k: int| 0 <= k < i ==> key_views(keys@)[k] != (registry@, name@),
        decreases keys@.len() - i,
    {
        if str_eq(keys[i].0.as_str(), registry) && str_eq(keys[i].1.as_str(), name) {
            assert(key_views(keys@)[i as int] == (registry@, name@));
            return true;
        }
        i += 1;
    }
    false
}

/// A set of keys.
#[derive(Debug)]
pub struct KeySet {
    keys: Vec<(String, String)>,
}

impl View for KeySet {
    type V = Set<Key>;

    closed spec fn view(&self) -> Set<Key> {
        key_views(self.keys@).to_set()
    }
}

impl KeySet {
    /// No key is kept twice.
    pub closed spec fn wf(&self) -> bool {
        key_views(self.keys@).no_duplicates()
    }

    /// The empty set.
    pub fn new() -> (r: KeySet)
        ensures
            r.wf(),
            r@ == Set::<Key>::empty(),
    {
        let r = KeySet { keys: Vec::new() };
        assert(r@ =~= Set::<Key>::empty());
        r
    }

    /// Whether the set holds the key.
    pub fn contains(&self, registry: &str, name: &str) -> (r: bool)
        ensures
            r == self@.contains((registry@, name@)),
    {
        keys_contain(&self.keys, registry, name)
    }

    /// Adds the key to the set.
    pub fn insert(&mut self, registry: String, name: String)
        requires
            old(self).wf(),
        ensures
            final(self).wf(),
            final(self)@ == old(self)@.insert((registry@, name@)),
    {
        if self.contains(registry.as_str(), name.as_str()) {
            assert(self@ =~= self@.insert((registry@, name@)));
        } else {
            let ghost before = key_views(self.keys@);
            self.keys.push((registry, name));
            assert(key_views(self.keys@) =~= before.push((registry@, name@)));
            assert(self@ =~= before.to_set().insert((registry@, name@))) by {
                assert forall|k: Key|
                    before.push((registry@, name@)).contains(k) <==> before.contains(k) || k == (
                        registry@,
                        name@,
                    ) by {
                    if before.contains(k) {
                        let i = before.index_of(k);
                        assert(before.push((registry@, name@))[i] == k);
                    }
                    if k == (registry@, name@) {
                        assert(before.push((registry@, name@))[before.len() as int] == k);
                    }
                }
            }
        }
    }

    /// Empties the set and hands out the keys it held, each once.
    pub fn drain(&mut self) -> (r: Vec<(String, String)>)
        requires
            old(self).wf(),
        ensures
            final(self).wf(),
            final(self)@ == Set::<Key>::empty(),
            key_views(r@).no_duplicates(),
            key_views(r@).to_set() == old(self)@,
    {
        let mut out: Vec<(String, String)> = Vec::new();
        std::mem::swap(&mut self.keys, &mut out);
        assert(self@ =~= Set::<Key>::empty());
        out
    }
}

} // verus!
