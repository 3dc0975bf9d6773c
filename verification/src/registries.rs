//! The registries: named namespaces that form a tree through their parents.

use vstd::prelude::*;
use crate::assoc::{assoc, lemma_assoc_lookup, lemma_assoc_push, lemma_assoc_update};
use crate::text::str_eq;

verus! {

/// A registry as it is stored.
#[derive(Debug)]
pub struct RegistryRow {
    id: i64,
    name: String,
    parent: Option<String>,
}

/// A registry as a mathematical value.
pub struct RegistryView {
    /// The identifier of the stored row.
    pub id: i64,
    pub name: Seq<char>,
    /// The name of the registry above this one; `None` for a root.
    pub parent: Option<Seq<char>>,
}

/// The view of a text that may be absent.
pub open spec fn option_view(s: Option<String>) -> Option<Seq<char>> {
    match s {
        Some(t) => Some(t@),
        None => None,
    }
}

impl View for RegistryRow {
    type V = RegistryView;

    closed spec fn view(&self) -> RegistryView {
        RegistryView { id: self.id, name: self.name@, parent: option_view(self.parent) }
    }
}

impl RegistryRow {
    /// A registry made of its parts.
    pub fn new(id: i64, name: String, parent: Option<String>) -> (r: RegistryRow)
        ensures
            r@ == (RegistryView { id, name: name@, parent: option_view(parent) }),
    {
        RegistryRow { id, name, parent }
    }

    /// The identifier of the stored row.
    pub fn get_id(&self) -> (r: i64)
        ensures
            r == self@.id,
    {
        self.id
    }

    /// The name of the registry.
    pub fn get_name(&self) -> (r: &str)
        ensures
            r@ == self@.name,
    {
        self.name.as_str()
    }

    /// The name of the registry above this one, if there is one.
    pub fn get_parent(&self) -> (r: Option<&str>)
        ensures
            match r {
                Some(p) => self@.parent == Some(p@),
                None => self@.parent is None,
            },
    {
        match &self.parent {
            Some(p) => Some(p.as_str()),
            None => None,
        }
    }
}

/// The registries, at most one for each name.
#[derive(Debug)]
pub struct RegistryTable {
    rows: Vec<RegistryRow>,
}

impl View for RegistryTable {
    type V = Map<Seq<char>, RegistryView>;

    closed spec fn view(&self) -> Map<Seq<char>, RegistryView> {
        assoc(self.names(), self.values())
    }
}

impl RegistryTable {
    spec fn names(&self) -> Seq<Seq<char>> {
        Seq::new(self.rows@.len(), |i: int| self.rows@[i]@.name)
    }

    spec fn values(&self) -> Seq<RegistryView> {
        Seq::new(self.rows@.len(), |i: int| self.rows@[i]@)
    }

    /// No two registries have the same name.
    pub closed spec fn wf(&self) -> bool {
        self.names().no_duplicates()
    }

    /// The table without registries.
    pub fn new() -> (r: RegistryTable)
        ensures
            r.wf(),
            r@ == Map::<Seq<char>, RegistryView>::empty(),
    {
        let r = RegistryTable { rows: Vec::new() };
        assert(r@ =~= Map::<Seq<char>, RegistryView>::empty());
        r
    }

    fn find(&self, name: &str) -> (r: Option<usize>)
        requires
            self.wf(),
        ensures
            match r {
                Some(i) => i < self.rows@.len() && self.names()[i as int] == name@
                    && self@.contains_key(name@) && self@[name@] == self.rows@[i as int]@,
                None => !self@.contains_key(name@),
            },
    {
        let mut i: usize = 0;
        while i < self.rows.len()
            invariant
                self.wf(),
                i <= self.rows@.len(),
                forall|k: int| 0 <= k < i ==> self.names()[k] != name@,
            decreases self.rows@.len() - i,
        {
            if str_eq(self.rows[i].name.as_str(), name) {
                proof {
                    lemma_assoc_lookup(self.names(), self.values(), i as int);
                }
                return Some(i);
            }
            i += 1;
        }
        None
    }

    /// The registry with the given name, if there is one.
    pub fn get(&self, name: &str) -> (r: Option<&RegistryRow>)
        requires
            self.wf(),
        ensures
            match r {
                Some(row) => self@.contains_key(name@) && row@ == self@[name@],
                None => !self@.contains_key(name@),
            },
    {
        match self.find(name) {
            Some(i) => Some(&self.rows[i]),
            None => None,
        }
    }

    /// Puts `row` under its name, in place of a registry of that name.
    pub fn insert(&mut self, row: RegistryRow)
        requires
            old(self).wf(),
        ensures
            final(self).wf(),
            final(self)@ == old(self)@.insert(row@.name, row@),
    {
        let ghost before = *self;
        match self.find(row.name.as_str()) {
            Some(i) => {
                proof {
                    lemma_assoc_update(self.names(), self.values(), i as int, row@);
                }
                let _ = self.rows.remove(i);
                self.rows.insert(i, row);
                assert(self.names() =~= before.names());
                assert(self.values() =~= before.values().update(i as int, row@));
            },
            None => {
                proof {
                    lemma_assoc_push(self.names(), self.values(), row@.name, row@);
                }
                self.rows.push(row);
                assert(self.names() =~= before.names().push(row@.name));
                assert(self.values() =~= before.values().push(row@));
            },
        }
    }
}

} // verus!
