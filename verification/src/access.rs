//! Who holds which roles, and how far each assignment is from its stored row.

use std::collections::HashMap;
use vstd::prelude::*;
use crate::hashed::keys_of;
use crate::role::{grants, rank, FlopRole, RoleView};
use crate::sync_state::SyncState;

verus! {

broadcast use vstd::std_specs::hash::group_hash_axioms;

/// The roles of one user as a mathematical value.
pub struct RolesView {
    /// The roles, in the order in which they were granted.
    pub roles: Seq<RoleView>,
    pub state: SyncState,
}

/// The views of a list of roles.
pub open spec fn role_views(v: Seq<FlopRole>) -> Seq<RoleView> {
    Seq::new(v.len(), |i: int| v[i]@)
}

/// Whether `user` holds `role` in `t`, directly or through a role above it. A
/// user whose assignment is to be deleted holds nothing; a banned user holds
/// the ban and nothing else.
pub open spec fn has_role(t: Map<u64, RolesView>, user: u64, role: RoleView) -> bool {
    &&& t.contains_key(user)
    &&& t[user].state != SyncState::Deleted
    &&& if t[user].roles.contains(RoleView::Banned) {
        role == RoleView::Banned
    } else {
        grants(t[user].roles, role)
    }
}

/// The table after `role` is granted to `user`. A new assignment holds just
/// the role; that of a banned user shrinks to the ban; any other grows by the
/// role.
pub open spec fn granted(t: Map<u64, RolesView>, user: u64, role: RoleView) -> Map<u64, RolesView> {
    if !t.contains_key(user) {
        t.insert(user, RolesView { roles: seq![role], state: SyncState::New })
    } else if t[user].roles.contains(RoleView::Banned) {
        t.insert(user, RolesView { roles: seq![RoleView::Banned], state: SyncState::Dirty })
    } else {
        t.insert(user, RolesView { roles: t[user].roles.push(role), state: SyncState::Dirty })
    }
}

/// The table after `role` is revoked from `user`. An assignment that is left
/// without roles is to be deleted.
pub open spec fn revoked(t: Map<u64, RolesView>, user: u64, role: RoleView) -> Map<u64, RolesView> {
    if !t.contains_key(user) {
        t
    } else {
        let rest = t[user].roles.filter(|r: RoleView| r != role);
        t.insert(
            user,
            RolesView {
                roles: rest,
                state: if rest.len() == 0 {
                    SyncState::Deleted
                } else {
                    SyncState::Dirty
                },
            },
        )
    }
}

/// The table after its changes were handed out: the assignments to be deleted
/// are gone, the others are clean.
pub open spec fn drained(t: Map<u64, RolesView>) -> Map<u64, RolesView> {
    Map::new(
        |u: u64| t.contains_key(u) && t[u].state != SyncState::Deleted,
        |u: u64| RolesView { roles: t[u].roles, state: SyncState::Clean },
    )
}

/// The users of a list of changes, in order.
pub open spec fn change_users(v: Seq<(u64, SyncState)>) -> Seq<u64> {
    Seq::new(v.len(), |i: int| v[i].0)
}

#[derive(Debug)]
struct UserRoles {
    roles: Vec<FlopRole>,
    state: SyncState,
}

impl UserRoles {
    spec fn content(&self) -> RolesView {
        RolesView { roles: role_views(self.roles@), state: self.state }
    }
}

/// The role assignments, one for each user that has one.
#[derive(Debug)]
pub struct RoleTable {
    users: HashMap<u64, UserRoles>,
}

impl View for RoleTable {
    type V = Map<u64, RolesView>;

    closed spec fn view(&self) -> Map<u64, RolesView> {
        Map::new(|u: u64| self.users@.contains_key(u), |u: u64| self.users@[u].content())
    }
}

fn holds(roles: &Vec<FlopRole>, role: &FlopRole) -> (r: bool)
    ensures
        r == role_views(roles@).contains(role@),
{
    let mut i: usize = 0;
    while i < roles.len()
        invariant
            i <= roles@.len(),
            forall|k: int| 0 <= k < i ==> role_views(roles@)[k] != role@,
        decreases roles@.len() - i,
    {
        if roles[i] == *role {
            assert(role_views(roles@)[i as int] == role@);
            return true;
        }
        i += 1;
    }
    false
}

/// A copy of a list of roles.
pub fn copy_roles(roles: &Vec<FlopRole>) -> (r: Vec<FlopRole>)
    ensures
        role_views(r@) == role_views(roles@),
{
    let mut out: Vec<FlopRole> = Vec::new();
    let mut i: usize = 0;
    while i < roles.len()
        invariant
            i <= roles@.len(),
            role_views(out@) == role_views(roles@).take(i as int),
        decreases roles@.len() - i,
    {
        let ghost before = role_views(out@);
        let copy = roles[i].clone();
        assert(copy@ == roles@[i as int]@);
        out.push(copy);
        assert(role_views(out@) =~= before.push(copy@));
        assert(role_views(out@) =~= role_views(roles@).take(i + 1));
        i += 1;
    }
    assert(role_views(out@) =~= role_views(roles@));
    out
}

fn without(roles: &Vec<FlopRole>, role: &FlopRole) -> (r: Vec<FlopRole>)
    ensures
        role_views(r@) == role_views(roles@).filter(|x: RoleView| x != role@),
{
    let mut out: Vec<FlopRole> = Vec::new();
    let mut i: usize = 0;
    let ghost pred = |x: RoleView| x != role@;
    while i < roles.len()
        invariant
            i <= roles@.len(),
            pred == |x: RoleView| x != role@,
            role_views(out@) == role_views(roles@).take(i as int).filter(pred),
        decreases roles@.len() - i,
    {
        proof {
            assert(role_views(roles@).take(i + 1).drop_last() =~= role_views(roles@).take(
                i as int,
            ));
            reveal(Seq::filter);
        }
        if roles[i] != *role {
            let ghost before = role_views(out@);
            out.push(roles[i].clone());
            assert(role_views(out@) =~= before.push(role_views(roles@)[i as int]));
        }
        i += 1;
    }
    assert(role_views(roles@).take(i as int) =~= role_views(roles@));
    out
}

impl RoleTable {
    /// The table is as it should be. A table that is keyed by the user always
    /// is: no user can have two assignments.
    pub closed spec fn wf(&self) -> bool {
        true
    }

    /// The table without assignments.
    pub fn new() -> (r: RoleTable)
        ensures
            r.wf(),
            r@ == Map::<u64, RolesView>::empty(),
    {
        let r = RoleTable { users: HashMap::new() };
        assert(r@ =~= Map::<u64, RolesView>::empty());
        r
    }

    /// Puts the assignment of a user as it was read from the store: clean.
    pub fn load(&mut self, user: u64, roles: Vec<FlopRole>)
        requires
            old(self).wf(),
        ensures
            final(self).wf(),
            final(self)@ == old(self)@.insert(
                user,
                RolesView { roles: role_views(roles@), state: SyncState::Clean },
            ),
    {
        self.put(user, roles, SyncState::Clean);
    }

    fn put(&mut self, user: u64, roles: Vec<FlopRole>, state: SyncState)
        ensures
            final(self)@ == old(self)@.insert(user, RolesView { roles: role_views(roles@), state }),
    {
        let _ = self.users.insert(user, UserRoles { roles, state });
        assert(self@ =~= old(self)@.insert(
            user,
            RolesView { roles: role_views(roles@), state },
        ));
    }

    fn find(&self, user: u64) -> (r: Option<&UserRoles>)
        ensures
            match r {
                Some(entry) => self@.contains_key(user) && self@[user] == entry.content()
                    && self.users@.contains_key(user) && self.users@[user] == *entry,
                None => !self@.contains_key(user),
            },
    {
        self.users.get(&user)
    }

    /// A copy of the roles of `user`, where the user has an assignment.
    pub fn roles_of(&self, user: u64) -> (r: Option<Vec<FlopRole>>)
        requires
            self.wf(),
        ensures
            match r {
                Some(roles) => self@.contains_key(user) && role_views(roles@) == self@[user].roles,
                None => !self@.contains_key(user),
            },
    {
        match self.find(user) {
            Some(entry) => Some(copy_roles(&entry.roles)),
            None => None,
        }
    }

    /// Whether `user` holds `role`, directly or through a role above it.
    pub fn user_has_role(&self, user: u64, role: &FlopRole) -> (r: bool)
        requires
            self.wf(),
        ensures
            r == has_role(self@, user, role@),
    {
        let entry = match self.find(user) {
            Some(entry) => entry,
            None => {
                return false;
            },
        };
        if entry.state == SyncState::Deleted {
            return false;
        }
        if holds(&entry.roles, &FlopRole::Banned) {
            return *role == FlopRole::Banned;
        }
        let ghost held = role_views(entry.roles@);
        let mut current = role.clone();
        loop
            invariant
                held == role_views(entry.roles@),
                has_role(self@, user, role@) == grants(held, role@),
                grants(held, role@) == grants(held, current@),
            decreases rank(current@),
        {
            if holds(&entry.roles, &current) {
                return true;
            }
            match current.get_parent() {
                None => {
                    return false;
                },
                Some(parent) => {
                    current = parent;
                },
            }
        }
    }

    /// Grants `role` to `user`.
    pub fn give_role(&mut self, user: u64, role: FlopRole)
        requires
            old(self).wf(),
        ensures
            final(self).wf(),
            final(self)@ == granted(old(self)@, user, role@),
    {
        let next: Option<Vec<FlopRole>> = match self.find(user) {
            None => None,
            Some(entry) => {
                if holds(&entry.roles, &FlopRole::Banned) {
                    let mut roles: Vec<FlopRole> = Vec::new();
                    roles.push(FlopRole::Banned);
                    assert(role_views(roles@) =~= seq![RoleView::Banned]);
                    Some(roles)
                } else {
                    let mut roles = copy_roles(&entry.roles);
                    let ghost before = role_views(roles@);
                    roles.push(role.clone());
                    assert(role_views(roles@) =~= before.push(role@));
                    Some(roles)
                }
            },
        };
        match next {
            None => {
                let mut roles: Vec<FlopRole> = Vec::new();
                roles.push(role);
                assert(role_views(roles@) =~= seq![role@]);
                self.put(user, roles, SyncState::New);
            },
            Some(roles) => {
                self.put(user, roles, SyncState::Dirty);
            },
        }
    }

    /// Revokes `role` from `user`.
    pub fn remove_role(&mut self, user: u64, role: FlopRole)
        requires
            old(self).wf(),
        ensures
            final(self).wf(),
            final(self)@ == revoked(old(self)@, user, role@),
    {
        let next: Option<Vec<FlopRole>> = match self.find(user) {
            None => None,
            Some(entry) => Some(without(&entry.roles, &role)),
        };
        match next {
            None => {},
            Some(roles) => {
                let state = if roles.len() == 0 {
                    SyncState::Deleted
                } else {
                    SyncState::Dirty
                };
                self.put(user, roles, state);
            },
        }
    }

    /// Hands out every assignment that is not clean, as the user and the state
    /// it was in. The assignments to be deleted leave the table, the others
    /// become clean.
    pub fn drain_roles(&mut self) -> (r: Vec<(u64, SyncState)>)
        requires
            old(self).wf(),
        ensures
            final(self).wf(),
            final(self)@ == drained(old(self)@),
            change_users(r@).no_duplicates(),
            forall|u: u64, s: SyncState|
                r@.contains((u, s)) <==> old(self)@.contains_key(u) && old(self)@[u].state == s && s
                    != SyncState::Clean,
    {
        let ghost before = self@;
        let users = keys_of(&self.users);
        let mut kept: HashMap<u64, UserRoles> = HashMap::new();
        let mut out: Vec<(u64, SyncState)> = Vec::new();
        let ghost mut out_from: Seq<int> = Seq::empty();
        let mut i: usize = 0;
        while i < users.len()
            invariant
                i <= users@.len(),
                before == self@,
                users@.no_duplicates(),
                users@.to_set() == self.users@.dom(),
                forall|u: u64| #[trigger]
                    kept@.contains_key(u) <==> users@.take(i as int).contains(u) && before[u].state
                        != SyncState::Deleted,
                forall|u: u64| #[trigger]
                    kept@.contains_key(u) ==> kept@[u].content() == (RolesView {
                        roles: before[u].roles,
                        state: SyncState::Clean,
                    }),
                out_from.len() == out@.len(),
                forall|k: int| 0 <= k < out_from.len() ==> 0 <= #[trigger] out_from[k] < i,
                forall|a: int, b: int|
                    0 <= a < b < out_from.len() ==> #[trigger] out_from[a] < #[trigger] out_from[b],
                forall|k: int|
                    0 <= k < out@.len() ==> (#[trigger] out@[k]).0 == users@[out_from[k]]
                        && out@[k].1 == before[out@[k].0].state && out@[k].1 != SyncState::Clean,
                forall|j: int|
                    0 <= j < i && before[#[trigger] users@[j]].state != SyncState::Clean
                        ==> out_from.contains(j),
            decreases users@.len() - i,
        {
            let user = users[i];
            assert(users@.to_set().contains(user));
            let ghost taken = users@.take(i as int);
            assert(users@.take(i + 1) =~= taken.push(user));
            assert(!taken.contains(user)) by {
                if taken.contains(user) {
                    let j = taken.index_of(user);
                    assert(users@[j] == users@[i as int]);
                }
            }
            match self.find(user) {
                Some(entry) => {
                    if entry.state != SyncState::Clean {
                        out.push((user, entry.state));
                        proof {
                            let prev = out_from;
                            out_from = out_from.push(i as int);
                            assert forall|j: int|
                                0 <= j < i + 1 && before[#[trigger] users@[j]].state
                                    != SyncState::Clean implies out_from.contains(j) by {
                                if j < i {
                                    let k = prev.index_of(j);
                                    assert(out_from[k] == j);
                                } else {
                                    assert(out_from[prev.len() as int] == j);
                                }
                            }
                        }
                    }
                    if entry.state != SyncState::Deleted {
                        let _ = kept.insert(
                            user,
                            UserRoles { roles: copy_roles(&entry.roles), state: SyncState::Clean },
                        );
                    }
                },
                None => {},
            }
            assert forall|u: u64| #[trigger]
                kept@.contains_key(u) <==> users@.take(i + 1).contains(u) && before[u].state
                    != SyncState::Deleted by {
                if taken.push(user).contains(u) {
                    let j = taken.push(user).index_of(u);
                    if j < taken.len() {
                        assert(taken[j] == u);
                    }
                }
                if taken.contains(u) {
                    let j = taken.index_of(u);
                    assert(taken.push(user)[j] == u);
                }
                if u == user {
                    assert(taken.push(user)[taken.len() as int] == user);
                }
            }
            i += 1;
        }
        proof {
            assert(users@.take(i as int) =~= users@);
            let after = Map::new(
                |u: u64| kept@.contains_key(u),
                |u: u64| kept@[u].content(),
            );
            assert forall|u: u64| #[trigger] after.contains_key(u) <==> drained(
                before,
            ).contains_key(u) by {
                if before.contains_key(u) {
                    assert(users@.to_set().contains(u));
                }
                if users@.contains(u) {
                    assert(users@.to_set().contains(u));
                }
            }
            assert(after =~= drained(before));
            let names = change_users(out@);
            assert forall|a: int, b: int|
                0 <= a < names.len() && 0 <= b < names.len() && a != b implies names[a]
                != names[b] by {
                if a < b {
                    assert(out_from[a] < out_from[b]);
                } else {
                    assert(out_from[b] < out_from[a]);
                }
            }
            assert forall|u: u64, s: SyncState|
                out@.contains((u, s)) <==> before.contains_key(u) && before[u].state == s && s
                    != SyncState::Clean by {
                if out@.contains((u, s)) {
                    let k = out@.index_of((u, s));
                    assert(users@.to_set().contains(users@[out_from[k]]));
                }
                if before.contains_key(u) && before[u].state == s && s != SyncState::Clean {
                    assert(users@.to_set().contains(u));
                    let j = users@.index_of(u);
                    let k = out_from.index_of(j);
                    assert(out@[k] == (u, s));
                }
            }
        }
        self.users = kept;
        out
    }
}

} // verus!
