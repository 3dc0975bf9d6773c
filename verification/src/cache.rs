//! Which answer was given to which message, for as many messages as are worth
//! remembering.

use std::collections::HashMap;
use vstd::prelude::*;
use crate::hashed::keys_of;

verus! {

broadcast use vstd::std_specs::hash::group_hash_axioms;

/// At how many remembered messages the oldest is forgotten.
pub const RESPONSE_CACHE_SIZE: usize = 512;

/// The answers that were given, by the message that they answer.
#[derive(Debug)]
pub struct ResponseCache {
    entries: HashMap<u64, u64>,
}

/// Whether `least` is the smallest key of `m`.
pub open spec fn is_least(m: Map<u64, u64>, least: u64) -> bool {
    &&& m.contains_key(least)
    &&& forall|k: u64| m.contains_key(k) ==> least <= k
}

impl View for ResponseCache {
    type V = Map<u64, u64>;

    closed spec fn view(&self) -> Map<u64, u64> {
        self.entries@
    }
}

impl ResponseCache {
    /// How many messages are remembered.
    pub closed spec fn count(&self) -> nat {
        self.entries@.len()
    }

    /// Fewer messages are remembered than the size at which one is forgotten.
    pub closed spec fn wf(&self) -> bool {
        self.entries@.len() < RESPONSE_CACHE_SIZE
    }

    /// The cache that remembers nothing.
    pub fn new() -> (r: ResponseCache)
        ensures
            r.wf(),
            r.count() == 0,
            r@ == Map::<u64, u64>::empty(),
    {
        ResponseCache { entries: HashMap::new() }
    }

    /// The answer that was given to the message `source`, if it is remembered.
    pub fn get(&self, source: u64) -> (r: Option<u64>)
        requires
            self.wf(),
        ensures
            match r {
                Some(reply) => self@.contains_key(source) && self@[source] == reply,
                None => !self@.contains_key(source),
            },
    {
        match self.entries.get(&source) {
            Some(reply) => Some(*reply),
            None => None,
        }
    }

    fn least(&self) -> (r: u64)
        requires
            self.entries@.len() > 0,
        ensures
            is_least(self@, r),
    {
        let keys = keys_of(&self.entries);
        assert(keys@.len() > 0) by {
            if keys@.len() == 0 {
                assert(keys@.to_set() =~= Set::<u64>::empty());
            }
        }
        let mut best: u64 = keys[0];
        let mut i: usize = 1;
        assert(keys@.take(1)[0] == best);
        while i < keys.len()
            invariant
                1 <= i <= keys@.len(),
                keys@.take(i as int).contains(best),
                forall|k: int| 0 <= k < i ==> best <= keys@[k],
            decreases keys@.len() - i,
        {
            if keys[i] < best {
                best = keys[i];
            }
            assert(keys@.take(i + 1).contains(best)) by {
                if best == keys@[i as int] {
                    assert(keys@.take(i + 1)[i as int] == best);
                } else {
                    let j = keys@.take(i as int).index_of(best);
                    assert(keys@.take(i + 1)[j] == best);
                }
            }
            i += 1;
        }
        proof {
            let j = keys@.take(i as int).index_of(best);
            assert(keys@[j] == best);
            assert(keys@.to_set().contains(best));
            assert forall|k: u64| self@.contains_key(k) implies best <= k by {
                assert(keys@.to_set().contains(k));
                let t = keys@.index_of(k);
                assert(best <= keys@[t]);
            }
        }
        best
    }

    /// Remembers that `reply` answers `source` and hands back the answer that
    /// was remembered for `source` before. When the cache becomes full by
    /// that, the message with the smallest identifier is forgotten.
    pub fn insert(&mut self, source: u64, reply: u64) -> (r: Option<u64>)
        requires
            old(self).wf(),
        ensures
            final(self).wf(),
            match r {
                Some(previous) => old(self)@.contains_key(source) && old(self)@[source]
                    == previous,
                None => !old(self)@.contains_key(source),
            },
            ({
                let grown = old(self)@.insert(source, reply);
                let size = if r is Some {
                    old(self).count()
                } else {
                    old(self).count() + 1
                };
                if size >= RESPONSE_CACHE_SIZE {
                    exists|least: u64|
                        {
                            &&& is_least(grown, least)
                            &&& final(self)@ == grown.remove(least)
                            &&& final(self).count() == size - 1
                        }
                } else {
                    final(self)@ == grown && final(self).count() == size
                }
            }),
    {
        let previous = self.entries.insert(source, reply);
        assert(self@ == old(self)@.insert(source, reply));
        if self.entries.len() >= RESPONSE_CACHE_SIZE {
            let ghost grown = self@;
            let victim = self.least();
            let _ = self.entries.remove(&victim);
            assert(self@ == grown.remove(victim));
        }
        previous
    }
}

} // verus!
