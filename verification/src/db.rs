//! The registry of commands in memory: entries, registries, role assignments,
//! and the record of what changed since the last synchronisation.

use vstd::prelude::*;
use vstd::string::*;
use crate::access::{change_users, role_views, RoleTable};
use crate::clock::unix_now;
use crate::dirty::{key_views, keys_contain, KeySet};
use crate::entries::{CommandEntry, EntryTable};
use crate::model::DbView;
use crate::node::CmdNode;
use crate::registries::{RegistryRow, RegistryTable};
use crate::resolve::{
    extended, step, walk, CanonicalisedStatus, CanonicalsedResult, Step,
    COMMAND_SEARCH_DEPTH_LIMIT,
};
use crate::role::FlopRole;
use crate::sync_state::SyncState;
use crate::text::{split_whitespace, to_lowercase, trim, views};

verus! {

/// The registry of commands.
#[derive(Debug)]
pub struct FlopDB {
    commands: EntryTable,
    dirty_commands: KeySet,
    registries: RegistryTable,
    removed_commands: Vec<i64>,
    user_roles: RoleTable,
}

impl View for FlopDB {
    type V = DbView;

    closed spec fn view(&self) -> DbView {
        DbView {
            commands: self.commands@,
            dirty: self.dirty_commands@,
            registries: self.registries@,
            removed: self.removed_commands@,
            roles: self.user_roles@,
        }
    }
}

fn extend_call(call: &str, name: &str) -> (r: String)
    ensures
        r@ == extended(call@, name@),
{
    let mut said = call.to_owned();
    said.append(" ");
    said.append(name);
    trim(said.as_str())
}

impl FlopDB {
    /// No key, registry name or user occurs twice.
    pub closed spec fn wf(&self) -> bool {
        &&& self.commands.wf()
        &&& self.dirty_commands.wf()
        &&& self.registries.wf()
        &&& self.user_roles.wf()
    }

    /// Every entry is kept under its registry and its name.
    pub proof fn lemma_keyed(&self)
        requires
            self.wf(),
        ensures
            self@.keyed(),
    {
        assert forall|k: crate::entries::Key| #[trigger]
            self@.commands.contains_key(k) implies self@.commands[k].key() == k by {
            self.commands.lemma_keyed(k);
        }
    }

    /// The registry without entries, registries or roles.
    pub fn new() -> (r: FlopDB)
        ensures
            r.wf(),
            r@ == DbView::empty(),
    {
        FlopDB {
            commands: EntryTable::new(),
            dirty_commands: KeySet::new(),
            registries: RegistryTable::new(),
            removed_commands: Vec::new(),
            user_roles: RoleTable::new(),
        }
    }

    /// The registry made of tables that were filled elsewhere.
    pub(crate) fn from_tables(
        commands: EntryTable,
        registries: RegistryTable,
        user_roles: RoleTable,
    ) -> (r: FlopDB)
        requires
            commands.wf(),
            registries.wf(),
            user_roles.wf(),
        ensures
            r.wf(),
            r@ == (DbView {
                commands: commands@,
                registries: registries@,
                roles: user_roles@,
                ..DbView::empty()
            }),
    {
        FlopDB {
            commands,
            dirty_commands: KeySet::new(),
            registries,
            removed_commands: Vec::new(),
            user_roles,
        }
    }

    /// The entry `name` of `registry`, the name taken in lower case.
    pub fn get_command(&self, registry: String, name: String) -> (r: Option<&CommandEntry>)
        requires
            self.wf(),
        ensures
            match r {
                Some(e) => self@.lookup(registry@, name@) == Some(e@),
                None => self@.lookup(registry@, name@) is None,
            },
    {
        let lower = to_lowercase(name.as_str());
        self.commands.get(registry.as_str(), lower.as_str())
    }

    /// The entry `name` of `registry`, the name taken as it is written.
    pub fn entry(&self, registry: &str, name: &str) -> (r: Option<&CommandEntry>)
        requires
            self.wf(),
        ensures
            match r {
                Some(e) => self@.commands.contains_key((registry@, name@)) && e@
                    == self@.commands[(registry@, name@)],
                None => !self@.commands.contains_key((registry@, name@)),
            },
    {
        self.commands.get(registry, name)
    }

    /// A copy of the roles of `user`, where the user has an assignment.
    pub fn roles_of(&self, user: u64) -> (r: Option<Vec<FlopRole>>)
        requires
            self.wf(),
        ensures
            match r {
                Some(roles) => self@.roles.contains_key(user) && role_views(roles@)
                    == self@.roles[user].roles,
                None => !self@.roles.contains_key(user),
            },
    {
        self.user_roles.roles_of(user)
    }

    /// Whether `registry` has an entry `name`, the name taken in lower case.
    pub fn command_exists(&self, registry: String, name: &str) -> (r: bool)
        requires
            self.wf(),
        ensures
            r == self@.lookup(registry@, name@).is_some(),
    {
        let lower = to_lowercase(name);
        self.commands.contains(registry.as_str(), lower.as_str())
    }

    /// Adds a command that is new at the moment of the call.
    ///
    /// The name is kept in lower case. Where the registry has an entry of that
    /// name already, nothing changes and a copy of that entry comes back;
    /// otherwise the new entry is added and marked as changed.
    pub fn add_command(
        &mut self,
        registry: String,
        name: String,
        owner: u64,
        ty: String,
        cmd: CmdNode,
    ) -> (r: Option<CommandEntry>)
        requires
            old(self).wf(),
        ensures
            final(self).wf(),
            exists|added: i64| #[trigger]
                final(self)@ == old(self)@.add(registry@, name@, owner, ty@, added, cmd@),
            match r {
                Some(e) => old(self)@.lookup(registry@, name@) == Some(e@),
                None => !old(self)@.add_rejected(registry@, name@),
            },
    {
        let added = unix_now();
        let r = self.add_command_at(registry, name, owner, ty, added, cmd);
        assert(self@ == old(self)@.add(registry@, name@, owner, ty@, added, cmd@));
        r
    }

    /// Adds a command that was new at the time `added`, in seconds since the
    /// epoch.
    ///
    /// The name is kept in lower case. Where the registry has an entry of that
    /// name already, nothing changes and a copy of that entry comes back;
    /// otherwise the new entry is added and marked as changed.
    pub fn add_command_at(
        &mut self,
        registry: String,
        name: String,
        owner: u64,
        ty: String,
        added: i64,
        cmd: CmdNode,
    ) -> (r: Option<CommandEntry>)
        requires
            old(self).wf(),
        ensures
            final(self).wf(),
            final(self)@ == old(self)@.add(registry@, name@, owner, ty@, added, cmd@),
            match r {
                Some(e) => old(self)@.lookup(registry@, name@) == Some(e@),
                None => !old(self)@.add_rejected(registry@, name@),
            },
    {
        let lower = to_lowercase(name.as_str());
        let entry = CommandEntry::new(None, registry.clone(), lower.clone(), owner, ty, added, cmd);
        match self.commands.insert(entry) {
            Some(e) => Some(e),
            None => {
                self.dirty_commands.insert(registry, lower);
                None
            },
        }
    }

    /// Removes the entry `name` of `registry`, the name taken as it is written.
    /// The stored row of a removed entry is noted for deletion. Tells whether
    /// there was such an entry.
    pub fn remove_command(&mut self, registry: String, name: String) -> (r: bool)
        requires
            old(self).wf(),
        ensures
            final(self).wf(),
            r == old(self)@.commands.contains_key((registry@, name@)),
            final(self)@ == old(self)@.remove(registry@, name@),
    {
        match self.commands.remove(registry.as_str(), name.as_str()) {
            Some(entry) => {
                match entry.get_id() {
                    Some(id) => {
                        self.removed_commands.push(id);
                    },
                    None => {},
                }
                true
            },
            None => {
                assert(self@.commands =~= old(self)@.commands);
                false
            },
        }
    }

    /// Gives the entry `name` of `registry` a new node, the name taken as it
    /// is written. Tells whether there was such an entry.
    pub fn set_node(&mut self, registry: &str, name: &str, node: CmdNode) -> (r: bool)
        requires
            old(self).wf(),
        ensures
            final(self).wf(),
            r == old(self)@.commands.contains_key((registry@, name@)),
            final(self)@ == old(self)@.with_node(registry@, name@, node@),
    {
        self.commands.set_node(registry, name, node)
    }

    /// Records the stored row of the entry `name` of `registry`, the name taken
    /// as it is written. Tells whether there was such an entry.
    pub fn set_id(&mut self, registry: &str, name: &str, id: i64) -> (r: bool)
        requires
            old(self).wf(),
        ensures
            final(self).wf(),
            r == old(self)@.commands.contains_key((registry@, name@)),
            final(self)@ == old(self)@.with_id(registry@, name@, id),
    {
        self.commands.set_id(registry, name, id)
    }

    /// Adds a registry, in place of one of the same name.
    pub fn add_registry(&mut self, row: RegistryRow)
        requires
            old(self).wf(),
        ensures
            final(self).wf(),
            final(self)@ == old(self)@.with_registry(row@),
    {
        self.registries.insert(row);
    }

    /// The registry of the given name, if there is one.
    pub fn get_registry(&self, name: &str) -> (r: Option<&RegistryRow>)
        requires
            self.wf(),
        ensures
            match r {
                Some(row) => self@.registries.contains_key(name@) && row@
                    == self@.registries[name@],
                None => !self@.registries.contains_key(name@),
            },
    {
        self.registries.get(name)
    }

    /// Marks the entry `name` of `registry` as changed.
    pub fn mark_dirty(&mut self, registry: String, name: String)
        requires
            old(self).wf(),
        ensures
            final(self).wf(),
            final(self)@ == old(self)@.mark_dirty(registry@, name@),
    {
        self.dirty_commands.insert(registry, name);
    }

    /// Hands out the keys of the entries that changed, each once, and forgets
    /// them.
    pub fn drain_dirty(&mut self) -> (r: Vec<(String, String)>)
        requires
            old(self).wf(),
        ensures
            final(self).wf(),
            final(self)@ == old(self)@.drain_dirty().0,
            key_views(r@).no_duplicates(),
            key_views(r@).to_set() == old(self)@.drain_dirty().1,
    {
        self.dirty_commands.drain()
    }

    /// Hands out the stored rows of the removed entries and forgets them.
    pub fn drain_removed(&mut self) -> (r: Vec<i64>)
        requires
            old(self).wf(),
        ensures
            final(self).wf(),
            final(self)@ == old(self)@.drain_removed().0,
            r@ == old(self)@.drain_removed().1,
    {
        let mut out: Vec<i64> = Vec::new();
        std::mem::swap(&mut self.removed_commands, &mut out);
        out
    }

    /// Hands out every role assignment that changed, each once, as the user
    /// and the state the assignment was in. The assignments to be deleted are
    /// forgotten, the others become clean.
    pub fn drain_roles(&mut self) -> (r: Vec<(u64, SyncState)>)
        requires
            old(self).wf(),
        ensures
            final(self).wf(),
            final(self)@ == old(self)@.drain_roles().0,
            change_users(r@).no_duplicates(),
            r@.to_set() == old(self)@.drain_roles().1,
    {
        let r = self.user_roles.drain_roles();
        assert(r@.to_set() =~= old(self)@.drain_roles().1);
        r
    }

    /// Whether `user` holds `role`, directly or through a role above it.
    pub fn user_has_role(&self, user: u64, role: &FlopRole) -> (r: bool)
        requires
            self.wf(),
        ensures
            r == self@.holds(user, role@),
    {
        self.user_roles.user_has_role(user, role)
    }

    /// Grants `role` to `user`.
    pub fn give_role(&mut self, user: u64, role: FlopRole)
        requires
            old(self).wf(),
        ensures
            final(self).wf(),
            final(self)@ == old(self)@.grant(user, role@),
    {
        self.user_roles.give_role(user, role);
    }

    /// Revokes `role` from `user`.
    pub fn remove_role(&mut self, user: u64, role: FlopRole)
        requires
            old(self).wf(),
        ensures
            final(self).wf(),
            final(self)@ == old(self)@.revoke(user, role@),
    {
        self.user_roles.remove_role(user, role);
    }

    /// Finds the command that the invocation `name` stands for, starting in
    /// `registry`: follows subregistries, links and parent registries, and
    /// stops at a place seen before or after the allowed number of lookups.
    pub fn canonicalise_command(&self, registry: String, name: String) -> (r: CanonicalsedResult)
        requires
            self.wf(),
        ensures
            r@ == self@.resolve(registry@, name@),
    {
        let line = split_whitespace(name.as_str());
        if line.len() == 0 {
            return CanonicalsedResult::default();
        }
        let ghost goal = self@.resolve(registry@, name@);
        let ghost spoken = views(line@);
        let mut current = registry.clone();
        let mut search_name = line[0].clone();
        let mut next: usize = 1;
        let mut stack: Vec<(String, String)> = Vec::new();
        stack.push((current.clone(), search_name.clone()));
        let mut call = String::new();
        assert(key_views(stack@) =~= seq![(registry@, spoken[0])]);
        let mut n: usize = 0;
        while n < COMMAND_SEARCH_DEPTH_LIMIT
            invariant
                self.wf(),
                spoken == views(line@),
                1 <= next <= line@.len(),
                n <= COMMAND_SEARCH_DEPTH_LIMIT,
                goal == self@.resolve(registry@, name@),
                goal == walk(
                    self@.commands,
                    self@.registries,
                    spoken,
                    next as int,
                    current@,
                    search_name@,
                    key_views(stack@),
                    call@,
                    (COMMAND_SEARCH_DEPTH_LIMIT - n) as nat,
                ),
            decreases COMMAND_SEARCH_DEPTH_LIMIT - n,
        {
            let ghost decided = step(
                self@.commands,
                self@.registries,
                spoken,
                next as int,
                current@,
                search_name@,
                call@,
            );
            let lower = to_lowercase(search_name.as_str());
            let target: (String, String);
            let said: String;
            let mut used: usize = next;
            match self.commands.get(current.as_str(), lower.as_str()) {
                Some(entry) => {
                    match entry.node() {
                        CmdNode::Cmd(_) => {
                            let done = extend_call(call.as_str(), line[next - 1].as_str());
                            return CanonicalsedResult {
                                stack,
                                call: done,
                                status: CanonicalisedStatus::Success,
                            };
                        },
                        CmdNode::Subregistry(reg) => {
                            let done = extend_call(call.as_str(), line[next - 1].as_str());
                            if next < line.len() {
                                assert(spoken[next as int] == line@[next as int]@);
                                target = (reg.clone(), line[next].clone());
                                used = next + 1;
                                said = done;
                            } else {
                                return CanonicalsedResult {
                                    stack,
                                    call: done,
                                    status: CanonicalisedStatus::FailedSubcommand,
                                };
                            }
                        },
                        CmdNode::Symlink { reg, name } => {
                            target = (reg.clone(), name.clone());
                            said = call;
                        },
                    }
                },
                None => {
                    let parent = match self.registries.get(current.as_str()) {
                        Some(row) => row.get_parent(),
                        None => None,
                    };
                    match parent {
                        Some(p) => {
                            target = (p.to_owned(), search_name);
                            said = call;
                        },
                        None => {
                            return CanonicalsedResult {
                                stack,
                                call,
                                status: CanonicalisedStatus::NotFound,
                            };
                        },
                    }
                },
            }
            assert(decided == Step::Go {
                registry: target.0@,
                name: target.1@,
                next: used as int,
                call: said@,
            });
            let seen = keys_contain(&stack, target.0.as_str(), target.1.as_str());
            let ghost before = key_views(stack@);
            stack.push((target.0.clone(), target.1.clone()));
            assert(key_views(stack@) =~= before.push((target.0@, target.1@)));
            if seen {
                return CanonicalsedResult {
                    stack,
                    call: said,
                    status: CanonicalisedStatus::Recursive,
                };
            }
            current = target.0;
            search_name = target.1;
            next = used;
            call = said;
            n += 1;
        }
        CanonicalsedResult { stack, call, status: CanonicalisedStatus::Overflow }
    }
}

} // verus!
