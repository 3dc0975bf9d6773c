//! The entries of the registry, each found by its registry and its name.

use vstd::prelude::*;
use crate::assoc::{assoc, lemma_assoc_lookup, lemma_assoc_position, lemma_assoc_push, lemma_assoc_remove, lemma_assoc_update};
use crate::node::{CmdNode, NodeView};
use crate::text::str_eq;

verus! {

/// What identifies an entry: the name of its registry, then its own name.
pub type Key = (Seq<char>, Seq<char>);

/// One named command of one registry.
#[derive(Debug)]
pub struct CommandEntry {
    id: Option<i64>,
    name: String,
    owner: u64,
    ty: String,
    added: i64,
    registry: String,
    node: CmdNode,
}

/// An entry as a mathematical value.
pub struct EntryView {
    /// The identifier of the stored row; `None` until the entry is first stored.
    pub id: Option<i64>,
    pub name: Seq<char>,
    /// The user who owns the entry.
    pub owner: u64,
    /// The type tag of the node.
    pub ty: Seq<char>,
    /// When the entry was added, in seconds since the epoch.
    pub added: i64,
    pub registry: Seq<char>,
    pub node: NodeView,
}

impl EntryView {
    /// The key under which the entry is kept.
    pub open spec fn key(self) -> Key {
        (self.registry, self.name)
    }
}

impl View for CommandEntry {
    type V = EntryView;

    closed spec fn view(&self) -> EntryView {
        EntryView {
            id: self.id,
            name: self.name@,
            owner: self.owner,
            ty: self.ty@,
            added: self.added,
            registry: self.registry@,
            node: self.node@,
        }
    }
}

impl Clone for CommandEntry {
    fn clone(&self) -> (r: CommandEntry)
        ensures
            r@ == self@,
    {
        CommandEntry {
            id: self.id,
            name: self.name.clone(),
            owner: self.owner,
            ty: self.ty.clone(),
            added: self.added,
            registry: self.registry.clone(),
            node: self.node.clone(),
        }
    }
}

impl CommandEntry {
    /// An entry made of its parts.
    pub fn new(
        id: Option<i64>,
        registry: String,
        name: String,
        owner: u64,
        ty: String,
        added: i64,
        node: CmdNode,
    ) -> (r: CommandEntry)
        ensures
            r@ == (EntryView {
                id,
                name: name@,
                owner,
                ty: ty@,
                added,
                registry: registry@,
                node: node@,
            }),
    {
        CommandEntry { id, name, owner, ty, added, registry, node }
    }

    /// The node of the entry, open to change.
    pub fn get_node(&mut self) -> (r: &mut CmdNode)
        ensures
            r@ == old(self)@.node,
            final(self)@ == (EntryView { node: final(r)@, ..old(self)@ }),
    {
        &mut self.node
    }

    /// The node of the entry.
    pub fn node(&self) -> (r: &CmdNode)
        ensures
            r@ == self@.node,
    {
        &self.node
    }

    /// The identifier of the stored row, if the entry has been stored.
    pub fn get_id(&self) -> (r: Option<i64>)
        ensures
            r == self@.id,
    {
        self.id
    }

    /// The user who owns the entry.
    pub fn get_owner(&self) -> (r: u64)
        ensures
            r == self@.owner,
    {
        self.owner
    }

    /// The type tag of the entry's node.
    pub fn get_type(&self) -> (r: &str)
        ensures
            r@ == self@.ty,
    {
        self.ty.as_str()
    }

    /// When the entry was added, in seconds since the epoch.
    pub fn get_added(&self) -> (r: i64)
        ensures
            r == self@.added,
    {
        self.added
    }

    /// The registry that the entry belongs to.
    pub fn get_registry(&self) -> (r: &str)
        ensures
            r@ == self@.registry,
    {
        self.registry.as_str()
    }

    /// The name of the entry.
    pub fn get_name(&self) -> (r: &str)
        ensures
            r@ == self@.name,
    {
        self.name.as_str()
    }

    fn with_node(self, node: CmdNode) -> (r: CommandEntry)
        ensures
            r@ == (EntryView { node: node@, ..self@ }),
    {
        CommandEntry {
            id: self.id,
            name: self.name,
            owner: self.owner,
            ty: self.ty,
            added: self.added,
            registry: self.registry,
            node,
        }
    }

    fn with_id(self, id: i64) -> (r: CommandEntry)
        ensures
            r@ == (EntryView { id: Some(id), ..self@ }),
    {
        CommandEntry {
            id: Some(id),
            name: self.name,
            owner: self.owner,
            ty: self.ty,
            added: self.added,
            registry: self.registry,
            node: self.node,
        }
    }
}

/// The entries, at most one for each key.
#[derive(Debug)]
pub struct EntryTable {
    entries: Vec<CommandEntry>,
}

impl View for EntryTable {
    type V = Map<Key, EntryView>;

    closed spec fn view(&self) -> Map<Key, EntryView> {
        assoc(self.keys(), self.values())
    }
}

impl EntryTable {
    spec fn keys(&self) -> Seq<Key> {
        Seq::new(self.entries@.len(), |i: int| self.entries@[i]@.key())
    }

    spec fn values(&self) -> Seq<EntryView> {
        Seq::new(self.entries@.len(), |i: int| self.entries@[i]@)
    }

    /// No two entries have the same key.
    pub closed spec fn wf(&self) -> bool {
        self.keys().no_duplicates()
    }

    /// Every entry is kept under its own key.
    pub proof fn lemma_keyed(&self, k: Key)
        requires
            self.wf(),
            self@.contains_key(k),
        ensures
            self@[k].key() == k,
    {
        let i = lemma_assoc_position(self.keys(), self.values(), k);
    }

    /// The table without entries.
    pub fn new() -> (r: EntryTable)
        ensures
            r.wf(),
            r@ == Map::<Key, EntryView>::empty(),
    {
        let r = EntryTable { entries: Vec::new() };
        assert(r@ =~= Map::<Key, EntryView>::empty());
        r
    }

    fn find(&self, registry: &str, name: &str) -> (r: Option<usize>)
        requires
            self.wf(),
        ensures
            match r {
                Some(i) => i < self.entries@.len() && self.keys()[i as int] == (registry@, name@)
                    && self@.contains_key((registry@, name@)) && self@[(registry@, name@)]
                    == self.entries@[i as int]@,
                None => !self@.contains_key((registry@, name@)),
            },
    {
        let mut i: usize = 0;
        while i < self.entries.len()
            invariant
                self.wf(),
                i <= self.entries@.len(),
                forall|k: int| 0 <= k < i ==> self.keys()[k] != (registry@, name@),
            decreases self.entries@.len() - i,
        {
            let e = &self.entries[i];
            if str_eq(e.registry.as_str(), registry) && str_eq(e.name.as_str(), name) {
                proof {
                    lemma_assoc_lookup(self.keys(), self.values(), i as int);
                }
                return Some(i);
            }
            i += 1;
        }
        None
    }

    /// The entry with the given registry and name, if there is one.
    pub fn get(&self, registry: &str, name: &str) -> (r: Option<&CommandEntry>)
        requires
            self.wf(),
        ensures
            match r {
                Some(e) => self@.contains_key((registry@, name@)) && e@ == self@[(
                    registry@,
                    name@,
                )],
                None => !self@.contains_key((registry@, name@)),
            },
    {
        match self.find(registry, name) {
            Some(i) => Some(&self.entries[i]),
            None => None,
        }
    }

    /// Whether there is an entry with the given registry and name.
    pub fn contains(&self, registry: &str, name: &str) -> (r: bool)
        requires
            self.wf(),
        ensures
            r == self@.contains_key((registry@, name@)),
    {
        self.find(registry, name).is_some()
    }

    /// Adds `entry` unless its key is taken. Where it is taken the table stays
    /// as it is and a copy of the entry in the way comes back.
    pub fn insert(&mut self, entry: CommandEntry) -> (r: Option<CommandEntry>)
        requires
            old(self).wf(),
        ensures
            final(self).wf(),
            match r {
                Some(e) => old(self)@.contains_key(entry@.key()) && e@ == old(self)@[entry@.key()]
                    && final(self)@ == old(self)@,
                None => !old(self)@.contains_key(entry@.key()) && final(self)@ == old(self)@.insert(
                    entry@.key(),
                    entry@,
                ),
            },
    {
        match self.find(entry.registry.as_str(), entry.name.as_str()) {
            Some(i) => Some(self.entries[i].clone()),
            None => {
                proof {
                    lemma_assoc_push(self.keys(), self.values(), entry@.key(), entry@);
                }
                let ghost before = *self;
                self.entries.push(entry);
                assert(self.keys() =~= before.keys().push(entry@.key()));
                assert(self.values() =~= before.values().push(entry@));
                None
            },
        }
    }

    /// Puts `entry` under its key, in place of the entry that was there, which
    /// comes back.
    pub fn replace(&mut self, entry: CommandEntry) -> (r: Option<CommandEntry>)
        requires
            old(self).wf(),
        ensures
            final(self).wf(),
            final(self)@ == old(self)@.insert(entry@.key(), entry@),
            match r {
                Some(e) => old(self)@.contains_key(entry@.key()) && e@ == old(self)@[entry@.key()],
                None => !old(self)@.contains_key(entry@.key()),
            },
    {
        let ghost before = *self;
        match self.find(entry.registry.as_str(), entry.name.as_str()) {
            Some(i) => {
                proof {
                    lemma_assoc_update(self.keys(), self.values(), i as int, entry@);
                }
                let previous = self.entries.remove(i);
                self.entries.insert(i, entry);
                assert(self.keys() =~= before.keys());
                assert(self.values() =~= before.values().update(i as int, entry@));
                Some(previous)
            },
            None => {
                proof {
                    lemma_assoc_push(self.keys(), self.values(), entry@.key(), entry@);
                }
                self.entries.push(entry);
                assert(self.keys() =~= before.keys().push(entry@.key()));
                assert(self.values() =~= before.values().push(entry@));
                None
            },
        }
    }

    /// Takes out the entry with the given registry and name, if there is one.
    pub fn remove(&mut self, registry: &str, name: &str) -> (r: Option<CommandEntry>)
        requires
            old(self).wf(),
        ensures
            final(self).wf(),
            final(self)@ == old(self)@.remove((registry@, name@)),
            match r {
                Some(e) => old(self)@.contains_key((registry@, name@)) && e@ == old(self)@[(
                    registry@,
                    name@,
                )],
                None => !old(self)@.contains_key((registry@, name@)),
            },
    {
        let ghost before = *self;
        match self.find(registry, name) {
            Some(i) => {
                proof {
                    lemma_assoc_remove(self.keys(), self.values(), i as int);
                }
                let previous = self.entries.remove(i);
                assert(self.keys() =~= before.keys().remove(i as int));
                assert(self.values() =~= before.values().remove(i as int));
                Some(previous)
            },
            None => {
                assert(self@ =~= self@.remove((registry@, name@)));
                None
            },
        }
    }

    /// Gives the entry with the given registry and name a new node. Tells
    /// whether there was such an entry.
    pub fn set_node(&mut self, registry: &str, name: &str, node: CmdNode) -> (r: bool)
        requires
            old(self).wf(),
        ensures
            final(self).wf(),
            r == old(self)@.contains_key((registry@, name@)),
            r ==> final(self)@ == old(self)@.insert(
                (registry@, name@),
                EntryView { node: node@, ..old(self)@[(registry@, name@)] },
            ),
            !r ==> final(self)@ == old(self)@,
    {
        let ghost before = *self;
        match self.find(registry, name) {
            Some(i) => {
                let previous = self.entries.remove(i);
                let next = previous.with_node(node);
                proof {
                    lemma_assoc_update(before.keys(), before.values(), i as int, next@);
                }
                self.entries.insert(i, next);
                assert(self.keys() =~= before.keys());
                assert(self.values() =~= before.values().update(i as int, next@));
                true
            },
            None => false,
        }
    }

    /// Records the identifier of the stored row of the entry with the given
    /// registry and name. Tells whether there was such an entry.
    pub fn set_id(&mut self, registry: &str, name: &str, id: i64) -> (r: bool)
        requires
            old(self).wf(),
        ensures
            final(self).wf(),
            r == old(self)@.contains_key((registry@, name@)),
            r ==> final(self)@ == old(self)@.insert(
                (registry@, name@),
                EntryView { id: Some(id), ..old(self)@[(registry@, name@)] },
            ),
            !r ==> final(self)@ == old(self)@,
    {
        let ghost before = *self;
        match self.find(registry, name) {
            Some(i) => {
                let previous = self.entries.remove(i);
                let next = previous.with_id(id);
                proof {
                    lemma_assoc_update(before.keys(), before.values(), i as int, next@);
                }
                self.entries.insert(i, next);
                assert(self.keys() =~= before.keys());
                assert(self.values() =~= before.values().update(i as int, next@));
                true
            },
            None => false,
        }
    }
}

} // verus!
