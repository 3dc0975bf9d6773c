//! The registry and its store: building the registry from stored rows, and
//! planning the writes that bring the store up to date.

use vstd::prelude::*;
use crate::access::{copy_roles, role_views, RoleTable, RolesView};
use crate::config::{Cli, CliView};
use crate::db::FlopDB;
use crate::dirty::key_views;
use crate::entries::{CommandEntry, EntryTable, EntryView, Key};
use crate::model::DbView;
use crate::node::{node_loaded, node_saved, CmdNode};
use crate::registries::{option_view, RegistryRow, RegistryTable, RegistryView};
use crate::role::{FlopRole, RoleView};
use crate::sync_state::SyncState;

verus! {

/// The row of the registry that entries fall back on where their own registry
/// is unknown.
pub const DEFAULT_REGISTRY_ID: i64 = 1;

/// One write to the store.
#[derive(Debug)]
pub enum SyncOp {
    /// Rewrite the row `id` of a command. Without `data` the stored payload is
    /// left as it is.
    UpdateCommand {
        id: i64,
        name: String,
        owner: u64,
        ty: String,
        registry_id: i64,
        data: Option<Vec<u8>>,
    },
    /// Add a row for the command `name` of `registry`. The store answers with
    /// the identifier of the row, which is then recorded in the entry.
    InsertCommand {
        registry: String,
        name: String,
        owner: u64,
        ty: String,
        registry_id: i64,
        added: i64,
        data: Option<Vec<u8>>,
    },
    /// Delete the row `id` of a command.
    DeleteCommand { id: i64 },
    /// Rewrite the roles of `user`.
    UpdateUser { user: u64, roles: Vec<FlopRole> },
    /// Add a row with the roles of `user`.
    InsertUser { user: u64, roles: Vec<FlopRole> },
    /// Delete the row of `user`.
    DeleteUser { user: u64 },
}

/// A write to the store as a mathematical value.
pub enum OpView {
    UpdateCommand {
        id: i64,
        name: Seq<char>,
        owner: u64,
        ty: Seq<char>,
        registry_id: i64,
        data: Option<Seq<u8>>,
    },
    InsertCommand {
        registry: Seq<char>,
        name: Seq<char>,
        owner: u64,
        ty: Seq<char>,
        registry_id: i64,
        added: i64,
        data: Option<Seq<u8>>,
    },
    DeleteCommand { id: i64 },
    UpdateUser { user: u64, roles: Seq<RoleView> },
    InsertUser { user: u64, roles: Seq<RoleView> },
    DeleteUser { user: u64 },
}

/// The view of bytes that may be absent.
pub open spec fn bytes_view(data: Option<Vec<u8>>) -> Option<Seq<u8>> {
    match data {
        Some(b) => Some(b@),
        None => None,
    }
}

impl View for SyncOp {
    type V = OpView;

    open spec fn view(&self) -> OpView {
        match self {
            SyncOp::UpdateCommand { id, name, owner, ty, registry_id, data } => OpView::UpdateCommand {
                id: *id,
                name: name@,
                owner: *owner,
                ty: ty@,
                registry_id: *registry_id,
                data: bytes_view(*data),
            },
            SyncOp::InsertCommand {
                registry,
                name,
                owner,
                ty,
                registry_id,
                added,
                data,
            } => OpView::InsertCommand {
                registry: registry@,
                name: name@,
                owner: *owner,
                ty: ty@,
                registry_id: *registry_id,
                added: *added,
                data: bytes_view(*data),
            },
            SyncOp::DeleteCommand { id } => OpView::DeleteCommand { id: *id },
            SyncOp::UpdateUser { user, roles } => OpView::UpdateUser {
                user: *user,
                roles: role_views(roles@),
            },
            SyncOp::InsertUser { user, roles } => OpView::InsertUser {
                user: *user,
                roles: role_views(roles@),
            },
            SyncOp::DeleteUser { user } => OpView::DeleteUser { user: *user },
        }
    }
}

/// The views of a list of writes.
pub open spec fn op_views(ops: Seq<SyncOp>) -> Seq<OpView> {
    Seq::new(ops.len(), |i: int| ops[i]@)
}

/// The stored row of the registry `name`; that of the default registry where
/// the name is unknown.
pub open spec fn registry_id(regs: Map<Seq<char>, RegistryView>, name: Seq<char>) -> i64 {
    if regs.contains_key(name) {
        regs[name].id
    } else {
        DEFAULT_REGISTRY_ID
    }
}

/// The write for a changed key: none where the entry is gone; an update where
/// the entry has a stored row; else an insertion. The entry is taken as it is
/// now, not as it was when it was marked.
pub open spec fn command_op(db: DbView, key: Key) -> Option<OpView> {
    if db.commands.contains_key(key) {
        let e = db.commands[key];
        Some(
            match e.id {
                Some(id) => OpView::UpdateCommand {
                    id,
                    name: e.name,
                    owner: e.owner,
                    ty: e.ty,
                    registry_id: registry_id(db.registries, e.registry),
                    data: node_saved(e.node),
                },
                None => OpView::InsertCommand {
                    registry: key.0,
                    name: key.1,
                    owner: e.owner,
                    ty: e.ty,
                    registry_id: registry_id(db.registries, e.registry),
                    added: e.added,
                    data: node_saved(e.node),
                },
            },
        )
    } else {
        None
    }
}

/// The writes for a list of changed keys, in its order.
pub open spec fn command_ops(db: DbView, keys: Seq<Key>) -> Seq<OpView>
    decreases keys.len(),
{
    if keys.len() == 0 {
        Seq::empty()
    } else {
        let rest = command_ops(db, keys.drop_last());
        match command_op(db, keys.last()) {
            Some(op) => rest.push(op),
            None => rest,
        }
    }
}

/// The deletions for a list of stored rows, in its order.
pub open spec fn delete_ops(ids: Seq<i64>) -> Seq<OpView> {
    Seq::new(ids.len(), |i: int| OpView::DeleteCommand { id: ids[i] })
}

/// The write for a role change: an update or an insertion with the roles as
/// they are now, where the user still has an assignment; a deletion; none for
/// a clean state.
pub open spec fn user_op(db: DbView, change: (u64, SyncState)) -> Option<OpView> {
    match change.1 {
        SyncState::Dirty => if db.roles.contains_key(change.0) {
            Some(OpView::UpdateUser { user: change.0, roles: db.roles[change.0].roles })
        } else {
            None
        },
        SyncState::New => if db.roles.contains_key(change.0) {
            Some(OpView::InsertUser { user: change.0, roles: db.roles[change.0].roles })
        } else {
            None
        },
        SyncState::Clean => None,
        SyncState::Deleted => Some(OpView::DeleteUser { user: change.0 }),
    }
}

/// The writes for a list of role changes, in its order.
pub open spec fn user_ops(db: DbView, changes: Seq<(u64, SyncState)>) -> Seq<OpView>
    decreases changes.len(),
{
    if changes.len() == 0 {
        Seq::empty()
    } else {
        let rest = user_ops(db, changes.drop_last());
        match user_op(db, changes.last()) {
            Some(op) => rest.push(op),
            None => rest,
        }
    }
}

/// The writes of one synchronisation: those for the changed entries, then the
/// deletions of removed entries, then those for the role changes.
pub open spec fn plan(
    db: DbView,
    dirty: Seq<Key>,
    removed: Seq<i64>,
    changes: Seq<(u64, SyncState)>,
) -> Seq<OpView> {
    command_ops(db, dirty) + delete_ops(removed) + user_ops(db, changes)
}

/// A command as it is stored.
#[derive(Debug)]
pub struct CommandRow {
    pub id: i64,
    pub name: String,
    pub owner: u64,
    pub ty: String,
    pub registry: String,
    pub added: Option<i64>,
    pub data: Option<Vec<u8>>,
}

/// A stored command as a mathematical value.
pub struct CommandRowView {
    pub id: i64,
    pub name: Seq<char>,
    pub owner: u64,
    pub ty: Seq<char>,
    pub registry: Seq<char>,
    pub added: Option<i64>,
    pub data: Option<Seq<u8>>,
}

impl View for CommandRow {
    type V = CommandRowView;

    open spec fn view(&self) -> CommandRowView {
        CommandRowView {
            id: self.id,
            name: self.name@,
            owner: self.owner,
            ty: self.ty@,
            registry: self.registry@,
            added: self.added,
            data: bytes_view(self.data),
        }
    }
}

/// The roles of a user as they are stored.
#[derive(Debug)]
pub struct UserRow {
    pub id: u64,
    pub roles: Vec<FlopRole>,
}

/// The views of a list of stored commands.
pub open spec fn command_rows(rows: Seq<CommandRow>) -> Seq<CommandRowView> {
    Seq::new(rows.len(), |i: int| rows[i]@)
}

/// The views of a list of stored registries.
pub open spec fn registry_rows(rows: Seq<RegistryRow>) -> Seq<RegistryView> {
    Seq::new(rows.len(), |i: int| rows[i]@)
}

/// The views of a list of stored role assignments.
pub open spec fn user_rows(rows: Seq<UserRow>) -> Seq<(u64, Seq<RoleView>)> {
    Seq::new(rows.len(), |i: int| (rows[i].id, role_views(rows[i].roles@)))
}

/// The entry that a stored command gives; none where its node cannot be built.
/// A missing time counts as zero, a missing payload as no bytes.
pub open spec fn row_entry(row: CommandRowView, cli: CliView) -> Option<EntryView> {
    let data = match row.data {
        Some(b) => b,
        None => Seq::empty(),
    };
    match node_loaded(row.ty, data, cli) {
        Ok(node) => Some(
            EntryView {
                id: Some(row.id),
                name: row.name,
                owner: row.owner,
                ty: row.ty,
                added: match row.added {
                    Some(t) => t,
                    None => 0,
                },
                registry: row.registry,
                node,
            },
        ),
        Err(_) => None,
    }
}

/// The entries that stored commands give. A row whose node cannot be built is
/// passed over; of two rows with one key the later stays.
pub open spec fn loaded_commands(rows: Seq<CommandRowView>, cli: CliView) -> Map<Key, EntryView>
    decreases rows.len(),
{
    if rows.len() == 0 {
        Map::empty()
    } else {
        let rest = loaded_commands(rows.drop_last(), cli);
        match row_entry(rows.last(), cli) {
            Some(e) => rest.insert(e.key(), e),
            None => rest,
        }
    }
}

/// The registries that stored rows give; of two rows with one name the later
/// stays.
pub open spec fn loaded_registries(rows: Seq<RegistryView>) -> Map<Seq<char>, RegistryView>
    decreases rows.len(),
{
    if rows.len() == 0 {
        Map::empty()
    } else {
        loaded_registries(rows.drop_last()).insert(rows.last().name, rows.last())
    }
}

/// The role assignments that stored rows give, each clean; of two rows for one
/// user the later stays.
pub open spec fn loaded_roles(rows: Seq<(u64, Seq<RoleView>)>) -> Map<u64, RolesView>
    decreases rows.len(),
{
    if rows.len() == 0 {
        Map::empty()
    } else {
        loaded_roles(rows.drop_last()).insert(
            rows.last().0,
            RolesView { roles: rows.last().1, state: SyncState::Clean },
        )
    }
}

/// The registry that the stored rows give: nothing in it is marked as changed.
pub open spec fn loaded(
    commands: Seq<CommandRowView>,
    registries: Seq<RegistryView>,
    users: Seq<(u64, Seq<RoleView>)>,
    cli: CliView,
) -> DbView {
    DbView {
        commands: loaded_commands(commands, cli),
        registries: loaded_registries(registries),
        roles: loaded_roles(users),
        ..DbView::empty()
    }
}

fn copy_bytes(data: &Option<Vec<u8>>) -> (r: Vec<u8>)
    ensures
        r@ == match bytes_view(*data) {
            Some(b) => b,
            None => Seq::<u8>::empty(),
        },
{
    match data {
        Some(b) => b.clone(),
        None => Vec::new(),
    }
}

fn copy_parent(parent: Option<&str>) -> (r: Option<String>)
    ensures
        match parent {
            Some(p) => option_view(r) == Some(p@),
            None => r is None,
        },
{
    match parent {
        Some(p) => Some(p.to_owned()),
        None => None,
    }
}

impl FlopDB {
    /// Builds the registry from what the store holds; the settings go to the
    /// commands that are built.
    pub fn init(
        commands: Vec<CommandRow>,
        registries: Vec<RegistryRow>,
        users: Vec<UserRow>,
        cli: &Cli,
    ) -> (r: FlopDB)
        ensures
            r.wf(),
            r@ == loaded(
                command_rows(commands@),
                registry_rows(registries@),
                user_rows(users@),
                cli@,
            ),
    {
        let mut entries = EntryTable::new();
        let mut i: usize = 0;
        while i < commands.len()
            invariant
                i <= commands@.len(),
                entries.wf(),
                entries@ == loaded_commands(command_rows(commands@).take(i as int), cli@),
            decreases commands@.len() - i,
        {
            let row = &commands[i];
            proof {
                assert(command_rows(commands@).take(i + 1).drop_last() =~= command_rows(
                    commands@,
                ).take(i as int));
            }
            let data = copy_bytes(&row.data);
            match CmdNode::load(row.ty.as_str(), data.as_slice(), cli) {
                Ok(node) => {
                    let added = match row.added {
                        Some(t) => t,
                        None => 0,
                    };
                    let entry = CommandEntry::new(
                        Some(row.id),
                        row.registry.clone(),
                        row.name.clone(),
                        row.owner,
                        row.ty.clone(),
                        added,
                        node,
                    );
                    let _ = entries.replace(entry);
                },
                Err(_) => {},
            }
            i += 1;
        }
        assert(command_rows(commands@).take(i as int) =~= command_rows(commands@));
        let mut names = RegistryTable::new();
        let mut j: usize = 0;
        while j < registries.len()
            invariant
                j <= registries@.len(),
                names.wf(),
                names@ == loaded_registries(registry_rows(registries@).take(j as int)),
            decreases registries@.len() - j,
        {
            let row = &registries[j];
            proof {
                assert(registry_rows(registries@).take(j + 1).drop_last() =~= registry_rows(
                    registries@,
                ).take(j as int));
            }
            let copy = RegistryRow::new(
                row.get_id(),
                row.get_name().to_owned(),
                copy_parent(row.get_parent()),
            );
            assert(copy@ == row@);
            names.insert(copy);
            j += 1;
        }
        assert(registry_rows(registries@).take(j as int) =~= registry_rows(registries@));
        let mut roles = RoleTable::new();
        let mut k: usize = 0;
        while k < users.len()
            invariant
                k <= users@.len(),
                roles.wf(),
                roles@ == loaded_roles(user_rows(users@).take(k as int)),
            decreases users@.len() - k,
        {
            let row = &users[k];
            proof {
                assert(user_rows(users@).take(k + 1).drop_last() =~= user_rows(users@).take(
                    k as int,
                ));
            }
            roles.load(row.id, copy_roles(&row.roles));
            k += 1;
        }
        assert(user_rows(users@).take(k as int) =~= user_rows(users@));
        FlopDB::from_tables(entries, names, roles)
    }

    fn registry_id_of(&self, registry: &str) -> (r: i64)
        requires
            self.wf(),
        ensures
            r == registry_id(self@.registries, registry@),
    {
        match self.get_registry(registry) {
            Some(row) => row.get_id(),
            None => DEFAULT_REGISTRY_ID,
        }
    }

    /// Plans the writes of one synchronisation from what was drained: the
    /// changed keys, the stored rows of removed entries, and the role changes.
    /// Entries and roles are read as they are now.
    pub fn sync(
        &self,
        dirty: Vec<(String, String)>,
        delete: Vec<i64>,
        roles: Vec<(u64, SyncState)>,
    ) -> (r: Vec<SyncOp>)
        requires
            self.wf(),
        ensures
            op_views(r@) == plan(self@, key_views(dirty@), delete@, roles@),
    {
        let mut ops: Vec<SyncOp> = Vec::new();
        assert(op_views(ops@) =~= Seq::empty());
        let mut i: usize = 0;
        while i < dirty.len()
            invariant
                self.wf(),
                i <= dirty@.len(),
                op_views(ops@) == command_ops(self@, key_views(dirty@).take(i as int)),
            decreases dirty@.len() - i,
        {
            proof {
                assert(key_views(dirty@).take(i + 1).drop_last() =~= key_views(dirty@).take(
                    i as int,
                ));
            }
            let registry = dirty[i].0.as_str();
            let name = dirty[i].1.as_str();
            match self.entry(registry, name) {
                Some(entry) => {
                    let registry_id = self.registry_id_of(entry.get_registry());
                    let data = entry.node().save();
                    let op = match entry.get_id() {
                        Some(id) => SyncOp::UpdateCommand {
                            id,
                            name: entry.get_name().to_owned(),
                            owner: entry.get_owner(),
                            ty: entry.get_type().to_owned(),
                            registry_id,
                            data,
                        },
                        None => SyncOp::InsertCommand {
                            registry: registry.to_owned(),
                            name: name.to_owned(),
                            owner: entry.get_owner(),
                            ty: entry.get_type().to_owned(),
                            registry_id,
                            added: entry.get_added(),
                            data,
                        },
                    };
                    let ghost before = op_views(ops@);
                    assert(Some(op@) == command_op(self@, key_views(dirty@)[i as int]));
                    ops.push(op);
                    assert(op_views(ops@) =~= before.push(op@));
                },
                None => {},
            }
            i += 1;
        }
        assert(key_views(dirty@).take(i as int) =~= key_views(dirty@));
        let ghost first = op_views(ops@);
        let mut j: usize = 0;
        while j < delete.len()
            invariant
                j <= delete@.len(),
                op_views(ops@) == first + delete_ops(delete@.take(j as int)),
            decreases delete@.len() - j,
        {
            let ghost before = op_views(ops@);
            let op = SyncOp::DeleteCommand { id: delete[j] };
            ops.push(op);
            assert(op_views(ops@) =~= before.push(op@));
            assert(op_views(ops@) =~= first + delete_ops(delete@.take(j + 1)));
            j += 1;
        }
        assert(delete@.take(j as int) =~= delete@);
        let ghost second = op_views(ops@);
        let mut k: usize = 0;
        assert(op_views(ops@) =~= second + Seq::<OpView>::empty());
        while k < roles.len()
            invariant
                self.wf(),
                k <= roles@.len(),
                op_views(ops@) == second + user_ops(self@, roles@.take(k as int)),
            decreases roles@.len() - k,
        {
            proof {
                assert(roles@.take(k + 1).drop_last() =~= roles@.take(k as int));
            }
            let user = roles[k].0;
            let made = match roles[k].1 {
                SyncState::Dirty => match self.roles_of(user) {
                    Some(held) => Some(SyncOp::UpdateUser { user, roles: held }),
                    None => None,
                },
                SyncState::New => match self.roles_of(user) {
                    Some(held) => Some(SyncOp::InsertUser { user, roles: held }),
                    None => None,
                },
                SyncState::Clean => None,
                SyncState::Deleted => Some(SyncOp::DeleteUser { user }),
            };
            match made {
                Some(op) => {
                    let ghost before = op_views(ops@);
                    assert(Some(op@) == user_op(self@, roles@[k as int]));
                    ops.push(op);
                    assert(op_views(ops@) =~= before.push(op@));
                    assert(op_views(ops@) =~= second + user_ops(self@, roles@.take(k + 1)));
                },
                None => {
                    assert(user_op(self@, roles@[k as int]) is None);
                },
            }
            k += 1;
        }
        assert(roles@.take(k as int) =~= roles@);
        ops
    }
}

} // verus!
