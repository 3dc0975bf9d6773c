//! The registry as a mathematical value, what each operation makes of it, and
//! the laws that hold between the operations.

use vstd::prelude::*;
use crate::access::{drained, granted, has_role, revoked, RolesView};
use crate::entries::{EntryView, Key};
use crate::node::NodeView;
use crate::registries::RegistryView;
use crate::resolve::{resolve, Resolution};
use crate::role::{grants, RoleView};
use crate::sync_state::SyncState;
use crate::text::lowercase;

verus! {

/// The registry of commands as a mathematical value.
pub struct DbView {
    /// The entries, by registry and name.
    pub commands: Map<Key, EntryView>,
    /// The keys of the entries that changed since the last drain.
    pub dirty: Set<Key>,
    /// The registries, by name.
    pub registries: Map<Seq<char>, RegistryView>,
    /// The stored rows of the entries removed since the last drain, in order.
    pub removed: Seq<i64>,
    /// The role assignments, by user.
    pub roles: Map<u64, RolesView>,
}

/// The entry that a new command gets. Its name is kept in lower case and it
/// has no stored row yet.
pub open spec fn fresh_entry(
    registry: Seq<char>,
    name: Seq<char>,
    owner: u64,
    ty: Seq<char>,
    added: i64,
    node: NodeView,
) -> EntryView {
    EntryView { id: None, name: lowercase(name), owner, ty, added, registry, node }
}

impl DbView {
    /// The registry without entries, registries or roles.
    pub open spec fn empty() -> DbView {
        DbView {
            commands: Map::empty(),
            dirty: Set::empty(),
            registries: Map::empty(),
            removed: Seq::empty(),
            roles: Map::empty(),
        }
    }

    /// Every entry is kept under its own registry and name.
    pub open spec fn keyed(self) -> bool {
        forall|k: Key| #[trigger] self.commands.contains_key(k) ==> self.commands[k].key() == k
    }

    /// The entry `name` of `registry`, the name taken in lower case.
    pub open spec fn lookup(self, registry: Seq<char>, name: Seq<char>) -> Option<EntryView> {
        if self.commands.contains_key((registry, lowercase(name))) {
            Some(self.commands[(registry, lowercase(name))])
        } else {
            None
        }
    }

    /// Whether a new command `name` of `registry` is turned away: the registry
    /// has an entry of that name, taken in lower case.
    pub open spec fn add_rejected(self, registry: Seq<char>, name: Seq<char>) -> bool {
        self.commands.contains_key((registry, lowercase(name)))
    }

    /// The registry after a command is added: unchanged where the name is
    /// taken, else with the new entry, marked as changed.
    pub open spec fn add(
        self,
        registry: Seq<char>,
        name: Seq<char>,
        owner: u64,
        ty: Seq<char>,
        added: i64,
        node: NodeView,
    ) -> DbView {
        if self.add_rejected(registry, name) {
            self
        } else {
            DbView {
                commands: self.commands.insert(
                    (registry, lowercase(name)),
                    fresh_entry(registry, name, owner, ty, added, node),
                ),
                dirty: self.dirty.insert((registry, lowercase(name))),
                ..self
            }
        }
    }

    /// The registry after the entry `name` of `registry` is removed, the name
    /// taken as it is written. The stored row of the entry, if it has one, is
    /// noted for deletion.
    pub open spec fn remove(self, registry: Seq<char>, name: Seq<char>) -> DbView {
        if self.commands.contains_key((registry, name)) {
            DbView {
                commands: self.commands.remove((registry, name)),
                removed: match self.commands[(registry, name)].id {
                    Some(id) => self.removed.push(id),
                    None => self.removed,
                },
                ..self
            }
        } else {
            self
        }
    }

    /// The registry after the entry `name` of `registry` got the node `node`.
    pub open spec fn with_node(self, registry: Seq<char>, name: Seq<char>, node: NodeView) -> DbView {
        if self.commands.contains_key((registry, name)) {
            DbView {
                commands: self.commands.insert(
                    (registry, name),
                    EntryView { node, ..self.commands[(registry, name)] },
                ),
                ..self
            }
        } else {
            self
        }
    }

    /// The registry after the stored row of the entry `name` of `registry` was
    /// recorded.
    pub open spec fn with_id(self, registry: Seq<char>, name: Seq<char>, id: i64) -> DbView {
        if self.commands.contains_key((registry, name)) {
            DbView {
                commands: self.commands.insert(
                    (registry, name),
                    EntryView { id: Some(id), ..self.commands[(registry, name)] },
                ),
                ..self
            }
        } else {
            self
        }
    }

    /// The registry after a registry was added, in place of one of its name.
    pub open spec fn with_registry(self, row: RegistryView) -> DbView {
        DbView { registries: self.registries.insert(row.name, row), ..self }
    }

    /// The registry after the key was marked as changed.
    pub open spec fn mark_dirty(self, registry: Seq<char>, name: Seq<char>) -> DbView {
        DbView { dirty: self.dirty.insert((registry, name)), ..self }
    }

    /// Draining the changed keys: the registry afterwards, and the keys that
    /// are handed out.
    pub open spec fn drain_dirty(self) -> (DbView, Set<Key>) {
        (DbView { dirty: Set::empty(), ..self }, self.dirty)
    }

    /// Draining the removal list: the registry afterwards, and the stored rows
    /// that are handed out.
    pub open spec fn drain_removed(self) -> (DbView, Seq<i64>) {
        (DbView { removed: Seq::empty(), ..self }, self.removed)
    }

    /// Draining the role changes: the registry afterwards, and the changes that
    /// are handed out, each a user and the state of the user's assignment.
    pub open spec fn drain_roles(self) -> (DbView, Set<(u64, SyncState)>) {
        (
            DbView { roles: drained(self.roles), ..self },
            Set::new(
                |c: (u64, SyncState)|
                    self.roles.contains_key(c.0) && self.roles[c.0].state == c.1 && c.1
                        != SyncState::Clean,
            ),
        )
    }

    /// Whether `user` holds `role`, directly or through a role above it.
    pub open spec fn holds(self, user: u64, role: RoleView) -> bool {
        has_role(self.roles, user, role)
    }

    /// The registry after `role` was granted to `user`.
    pub open spec fn grant(self, user: u64, role: RoleView) -> DbView {
        DbView { roles: granted(self.roles, user, role), ..self }
    }

    /// The registry after `role` was revoked from `user`.
    pub open spec fn revoke(self, user: u64, role: RoleView) -> DbView {
        DbView { roles: revoked(self.roles, user, role), ..self }
    }

    /// The resolution of the invocation `text`, started in `registry`.
    pub open spec fn resolve(self, registry: Seq<char>, text: Seq<char>) -> Resolution {
        resolve(self.commands, self.registries, registry, text)
    }
}

/// A name that was added cannot be added again, however it is capitalised:
/// the second command is turned away and the registry stays as the first left
/// it.
pub proof fn lemma_added_name_is_taken(
    db: DbView,
    registry: Seq<char>,
    first: Seq<char>,
    owner: u64,
    ty: Seq<char>,
    added: i64,
    node: NodeView,
    second: Seq<char>,
    other_owner: u64,
    other_ty: Seq<char>,
    other_added: i64,
    other_node: NodeView,
)
    requires
        !db.add_rejected(registry, first),
        lowercase(second) == lowercase(first),
    ensures
        db.add(registry, first, owner, ty, added, node).add_rejected(registry, second),
        db.add(registry, first, owner, ty, added, node).add(
            registry,
            second,
            other_owner,
            other_ty,
            other_added,
            other_node,
        ) == db.add(registry, first, owner, ty, added, node),
        db.add(registry, first, owner, ty, added, node).lookup(registry, first) == Some(
            fresh_entry(registry, first, owner, ty, added, node),
        ),
{
}

/// A command that was added is found under every spelling of its name that
/// has the same lower-case form.
pub proof fn lemma_lookup_ignores_case(
    db: DbView,
    registry: Seq<char>,
    name: Seq<char>,
    owner: u64,
    ty: Seq<char>,
    added: i64,
    node: NodeView,
    spelling: Seq<char>,
)
    requires
        !db.add_rejected(registry, name),
        lowercase(spelling) == lowercase(name),
    ensures
        db.add(registry, name, owner, ty, added, node).lookup(registry, spelling) == Some(
            fresh_entry(registry, name, owner, ty, added, node),
        ),
{
}

/// After a drain of the changed keys, a second drain hands out nothing.
pub proof fn lemma_second_drain_is_empty(db: DbView)
    ensures
        db.drain_dirty().0.drain_dirty().1 == Set::<Key>::empty(),
        db.drain_dirty().1 == db.dirty,
{
}

/// A command added between two drains is handed out by the second drain, and
/// nothing else is.
pub proof fn lemma_drain_after_add(
    db: DbView,
    registry: Seq<char>,
    name: Seq<char>,
    owner: u64,
    ty: Seq<char>,
    added: i64,
    node: NodeView,
)
    requires
        !db.add_rejected(registry, name),
    ensures
        db.drain_dirty().0.add(registry, name, owner, ty, added, node).drain_dirty().1
            == Set::<Key>::empty().insert((registry, lowercase(name))),
        db.drain_dirty().1.contains((registry, lowercase(name))) == db.dirty.contains(
            (registry, lowercase(name)),
        ),
{
}

/// After a drain of the role changes, a second drain hands out nothing, and no
/// assignment is left that is to be deleted.
pub proof fn lemma_second_role_drain_is_empty(db: DbView)
    ensures
        db.drain_roles().0.drain_roles().1 == Set::<(u64, SyncState)>::empty(),
        forall|u: u64| #[trigger]
            db.drain_roles().0.roles.contains_key(u) ==> db.drain_roles().0.roles[u].state
                == SyncState::Clean,
{
    assert(db.drain_roles().0.drain_roles().1 =~= Set::<(u64, SyncState)>::empty());
}

/// A user whose last role was revoked holds nothing, whatever is asked.
pub proof fn lemma_revoked_to_nothing(db: DbView, user: u64, role: RoleView, asked: RoleView)
    requires
        db.roles.contains_key(user),
        db.revoke(user, role).roles[user].roles.len() == 0,
    ensures
        !db.revoke(user, role).holds(user, asked),
{
}

/// A banned user holds the ban and nothing else, whatever roles stand beside
/// the ban.
pub proof fn lemma_ban_denies_all_else(db: DbView, user: u64, role: RoleView)
    requires
        db.roles.contains_key(user),
        db.roles[user].roles.contains(RoleView::Banned),
        db.holds(user, role),
    ensures
        role == RoleView::Banned,
{
}

/// A ban outlasts a later grant: after the ban and then the administrator role
/// were granted, the user holds the ban and not the administrator role.
pub proof fn lemma_ban_overrides_grant(db: DbView, user: u64)
    ensures
        !db.grant(user, RoleView::Banned).grant(user, RoleView::Admin).holds(
            user,
            RoleView::Admin,
        ),
        db.grant(user, RoleView::Banned).grant(user, RoleView::Admin).holds(
            user,
            RoleView::Banned,
        ),
{
    let banned = db.grant(user, RoleView::Banned);
    assert(banned.roles.contains_key(user));
    assert(banned.roles[user].roles.contains(RoleView::Banned)) by {
        if !db.roles.contains_key(user) {
            assert(seq![RoleView::Banned][0] == RoleView::Banned);
        } else if db.roles[user].roles.contains(RoleView::Banned) {
            assert(seq![RoleView::Banned][0] == RoleView::Banned);
        } else {
            let held = db.roles[user].roles;
            assert(held.push(RoleView::Banned)[held.len() as int] == RoleView::Banned);
        }
    }
    let after = banned.grant(user, RoleView::Admin);
    assert(after.roles[user].roles == seq![RoleView::Banned]);
    assert(seq![RoleView::Banned][0] == RoleView::Banned);
    assert(after.roles[user].roles.contains(RoleView::Banned));
}

/// A user who is not banned and is granted the role of moderator of all
/// registries holds the role of moderator of each single registry.
pub proof fn lemma_global_moderator_moderates_each(db: DbView, user: u64, registry: Seq<char>)
    requires
        !(db.roles.contains_key(user) && db.roles[user].roles.contains(RoleView::Banned)),
    ensures
        db.grant(user, RoleView::GlobalMod).holds(user, RoleView::RegMod(registry)),
{
    let after = db.grant(user, RoleView::GlobalMod);
    let held = after.roles[user].roles;
    assert(held.contains(RoleView::GlobalMod)) by {
        if !db.roles.contains_key(user) {
            assert(seq![RoleView::GlobalMod][0] == RoleView::GlobalMod);
        } else {
            let before = db.roles[user].roles;
            assert(before.push(RoleView::GlobalMod)[before.len() as int] == RoleView::GlobalMod);
        }
    }
    assert(!held.contains(RoleView::Banned)) by {
        if held.contains(RoleView::Banned) {
            let i = held.index_of(RoleView::Banned);
            if db.roles.contains_key(user) {
                assert(db.roles[user].roles[i] == RoleView::Banned);
            }
        }
    }
    assert(grants(held, RoleView::GlobalMod));
    assert(grants(held, RoleView::RegMod(registry)));
}

/// After the role of moderator of one registry was granted, the user holds the
/// role of moderator of all registries exactly when the user held it before
/// and is not banned: the roles are passed down, not up.
pub proof fn lemma_registry_moderator_and_global(db: DbView, user: u64, registry: Seq<char>)
    ensures
        db.grant(user, RoleView::RegMod(registry)).holds(user, RoleView::GlobalMod) <==> (
        db.roles.contains_key(user) && !db.roles[user].roles.contains(RoleView::Banned) && grants(
            db.roles[user].roles,
            RoleView::GlobalMod,
        )),
{
    let role = RoleView::RegMod(registry);
    let after = db.grant(user, role);
    let held = after.roles[user].roles;
    if !db.roles.contains_key(user) {
        assert(held == seq![role]);
        assert forall|r: RoleView| held.contains(r) implies r == role by {
            let i = held.index_of(r);
        }
        assert(!grants(held, RoleView::Admin));
        assert(!grants(held, RoleView::GlobalMod));
    } else if db.roles[user].roles.contains(RoleView::Banned) {
        assert(seq![RoleView::Banned][0] == RoleView::Banned);
    } else {
        let before = db.roles[user].roles;
        assert forall|r: RoleView| r != role implies (held.contains(r) <==> before.contains(
            r,
        )) by {
            if held.contains(r) {
                let i = held.index_of(r);
                assert(before[i] == r);
            }
            if before.contains(r) {
                let i = before.index_of(r);
                assert(held[i] == r);
            }
        }
        assert(grants(held, RoleView::Admin) == grants(before, RoleView::Admin));
        assert(grants(held, RoleView::GlobalMod) == grants(before, RoleView::GlobalMod));
    }
}

} // verus!
