use floppa::command::{construct, is_valid, CommandObject, ConstructError, MessageCommand, VALID};
use floppa::command::{
    AddCommand, BrokenCommand, EditCommand, FlopCountCommand, InfoCommand, LinkCommand, RemoveCommand,
    RoleCommand, StoikCommand, SubregistyMarkerCommand, VersionCommand, WikiCommand,
};
use floppa::config::Cli;
use floppa::db::FlopDB;
use floppa::message::FlopMessagable;
use floppa::node::{CmdNode, SUBREG_ID, SYMLINK_ID};
use floppa::persist::{CommandRow, SyncOp, UserRow};
use floppa::registries::RegistryRow;
use floppa::role::FlopRole;
use floppa::sync_state::SyncState;

fn cli() -> Cli {
    Cli {
        run_dir: "/srv/floppa".to_string(),
    }
}

fn row(id: i64, registry: &str, name: &str, ty: &str, data: Option<Vec<u8>>) -> CommandRow {
    CommandRow {
        id,
        name: name.to_string(),
        owner: 9,
        ty: ty.to_string(),
        registry: registry.to_string(),
        added: Some(77),
        data,
    }
}

#[test]
fn plain_text_round_trip_is_byte_identical() {
    let bytes = "pong ⚠️ ünï".as_bytes().to_vec();
    let first = MessageCommand::construct(&cli(), &bytes).unwrap();
    let saved = first.save().unwrap();
    assert_eq!(saved, bytes);
    let second = MessageCommand::construct(&cli(), &saved).unwrap();
    assert_eq!(second.save().unwrap(), saved);
}

#[test]
fn plain_text_from_broken_bytes_settles_after_one_save() {
    let broken = vec![b'a', 0xff, b'b'];
    let first = MessageCommand::construct(&cli(), &broken).unwrap();
    let saved = first.save().unwrap();
    assert_eq!(saved, "a\u{fffd}b".as_bytes().to_vec());
    let second = MessageCommand::construct(&cli(), &saved).unwrap();
    assert_eq!(second.save().unwrap(), saved);
}

#[test]
fn message_command_answers_with_its_text() {
    let mut cmd = MessageCommand::new(FlopMessagable::Text("hi".to_string()));
    match cmd.execute() {
        FlopMessagable::Text(t) => assert_eq!(t, "hi"),
        FlopMessagable::_None => panic!("expected a text"),
    }
    let silent = MessageCommand::new(FlopMessagable::_None);
    assert_eq!(
        silent.save(),
        Some("⚠️**ERROR**⚠️ Unable to serialise value".as_bytes().to_vec())
    );
    assert!(FlopMessagable::_None.is_none());
    assert!(!FlopMessagable::text("x".to_string()).is_none());
}

#[test]
fn unknown_type_tag_gives_broken_command() {
    let cmd = construct("NoSuchCommand", b"whatever", &cli()).unwrap();
    assert!(matches!(cmd, CommandObject::Broken(_)));
    assert_eq!(cmd.save(), None);
    let mut broken = BrokenCommand::construct(&cli(), b"x").unwrap();
    assert_eq!(broken.save(), None);
    match broken.execute() {
        FlopMessagable::Text(t) => assert_eq!(t, "⚠️**ERROR**⚠️ Broken Command"),
        FlopMessagable::_None => panic!("expected a text"),
    }
    assert!(!is_valid("NoSuchCommand"));
    assert!(!is_valid("messagecommand"));
}

#[test]
fn every_known_type_tag_builds_its_kind() {
    assert_eq!(VALID.len(), 11);
    for tag in VALID {
        assert!(is_valid(tag));
        let cmd = construct(tag, b"data", &cli()).unwrap();
        let ok = match (tag, &cmd) {
            ("MessageCommand", CommandObject::Message(_)) => true,
            ("AddCommand", CommandObject::Add(_)) => true,
            ("InfoCommand", CommandObject::Info(_)) => true,
            ("EditCommand", CommandObject::Edit(_)) => true,
            ("RemoveCommand", CommandObject::Remove(_)) => true,
            ("LinkCommand", CommandObject::Link(_)) => true,
            ("RoleCommand", CommandObject::Role(_)) => true,
            ("VersionCommand", CommandObject::Version(_)) => true,
            ("FlopCountCommand", CommandObject::FlopCount(_)) => true,
            ("WikiCommand", CommandObject::Wiki(_)) => true,
            ("StoikCommand", CommandObject::Stoik(_)) => true,
            _ => false,
        };
        assert!(ok, "{} built the wrong kind", tag);
        if tag == "MessageCommand" {
            assert_eq!(cmd.save(), Some(b"data".to_vec()));
        } else {
            assert_eq!(cmd.save(), None);
        }
    }
}

#[test]
fn commands_without_state_store_nothing() {
    assert!(AddCommand::construct(&cli(), b"x").is_ok());
    assert!(EditCommand::construct(&cli(), b"x").is_ok());
    assert_eq!(InfoCommand::construct(&cli(), b"x"), Ok(InfoCommand));
    assert_eq!(LinkCommand::construct(&cli(), b"x"), Ok(LinkCommand));
    assert_eq!(RemoveCommand::construct(&cli(), b"x"), Ok(RemoveCommand));
    assert_eq!(RoleCommand::construct(&cli(), b"x"), Ok(RoleCommand));
    assert_eq!(VersionCommand::construct(&cli(), b"x"), Ok(VersionCommand));
    assert_eq!(FlopCountCommand::construct(&cli(), b"x"), Ok(FlopCountCommand));
    assert_eq!(WikiCommand::construct(&cli(), b"x"), Ok(WikiCommand));
    assert_eq!(StoikCommand::construct(&cli(), b"x"), Ok(StoikCommand));
    assert_eq!(AddCommand::construct(&cli(), b"x").unwrap().save(), None);
    assert_eq!(EditCommand::construct(&cli(), b"x").unwrap().save(), None);
    assert_eq!(InfoCommand.save(), None);
    assert_eq!(LinkCommand.save(), None);
    assert_eq!(RemoveCommand.save(), None);
    assert_eq!(RoleCommand.save(), None);
    assert_eq!(VersionCommand.save(), None);
    assert_eq!(FlopCountCommand.save(), None);
    assert_eq!(WikiCommand.save(), None);
    assert_eq!(StoikCommand.save(), None);
}

#[test]
fn subregistry_node_round_trip() {
    let node = CmdNode::Subregistry("maths".to_string());
    let saved = node.save().unwrap();
    assert_eq!(saved, b"maths".to_vec());
    assert_eq!(CmdNode::SUBREG_ID, SUBREG_ID);
    assert_eq!(CmdNode::SYMLINK_ID, "Symlink");
    match CmdNode::load(CmdNode::SUBREG_ID, &saved, &cli()) {
        Ok(CmdNode::Subregistry(r)) => assert_eq!(r, "maths"),
        _ => panic!("expected a subregistry"),
    }
    match CmdNode::load("Subregistry", &[0xc3, 0x28], &cli()) {
        Err(e) => assert_eq!(e, ConstructError::InvalidText),
        Ok(_) => panic!("broken text must be turned down"),
    }
}

#[test]
fn link_node_round_trip_through_messagepack() {
    let node = CmdNode::Symlink {
        reg: "root".to_string(),
        name: "ping".to_string(),
    };
    let saved = node.save().unwrap();
    assert_eq!(
        saved,
        vec![0x92, 0xa4, b'r', b'o', b'o', b't', 0xa4, b'p', b'i', b'n', b'g']
    );
    match CmdNode::load(SYMLINK_ID, &saved, &cli()) {
        Ok(CmdNode::Symlink { reg, name }) => {
            assert_eq!(reg, "root");
            assert_eq!(name, "ping");
        }
        _ => panic!("expected a link"),
    }
    match CmdNode::load("Symlink", b"root", &cli()) {
        Err(e) => assert_eq!(e, ConstructError::InvalidLink),
        Ok(_) => panic!("bytes that hold no pair must be turned down"),
    }
}

#[test]
fn command_node_loads_by_type_tag() {
    match CmdNode::load("MessageCommand", b"pong", &cli()) {
        Ok(node) => assert_eq!(node.save(), Some(b"pong".to_vec())),
        Err(_) => panic!("expected a command"),
    }
    let node = CmdNode::from(CommandObject::Info(InfoCommand));
    assert_eq!(node.save(), None);
}

#[test]
fn marker_for_subregistry_keeps_its_name() {
    let mut marker = SubregistyMarkerCommand::construct(&cli(), b"maths").unwrap();
    assert_eq!(marker.save(), Some(b"maths".to_vec()));
    assert!(marker.execute().is_none());
    assert_eq!(
        SubregistyMarkerCommand::construct(&cli(), &[0xff]).err(),
        Some(ConstructError::InvalidText)
    );
}

#[test]
fn init_builds_registry_from_rows() {
    let commands = vec![
        row(1, "root", "ping", "MessageCommand", Some(b"pong".to_vec())),
        row(2, "root", "math", "Subregistry", Some(b"maths".to_vec())),
        row(3, "root", "bad", "Subregistry", Some(vec![0xff])),
        row(4, "root", "badlink", "Symlink", Some(b"x".to_vec())),
        row(5, "root", "ping", "MessageCommand", Some(b"later".to_vec())),
        CommandRow {
            id: 6,
            name: "bare".to_string(),
            owner: 3,
            ty: "InfoCommand".to_string(),
            registry: "maths".to_string(),
            added: None,
            data: None,
        },
    ];
    let registries = vec![
        RegistryRow::new(1, "root".to_string(), None),
        RegistryRow::new(2, "maths".to_string(), Some("root".to_string())),
    ];
    let users = vec![
        UserRow {
            id: 10,
            roles: vec![FlopRole::Admin],
        },
        UserRow {
            id: 11,
            roles: vec![FlopRole::Banned, FlopRole::Admin],
        },
    ];
    let mut db = FlopDB::init(commands, registries, users, &cli());
    let ping = db.entry("root", "ping").unwrap();
    assert_eq!(ping.get_id(), Some(5));
    assert_eq!(ping.get_owner(), 9);
    assert_eq!(ping.get_added(), 77);
    assert_eq!(ping.node().save(), Some(b"later".to_vec()));
    assert!(db.entry("root", "math").is_some());
    assert!(db.entry("root", "bad").is_none());
    assert!(db.entry("root", "badlink").is_none());
    let bare = db.entry("maths", "bare").unwrap();
    assert_eq!(bare.get_added(), 0);
    assert_eq!(bare.get_owner(), 3);
    assert_eq!(db.get_registry("maths").unwrap().get_parent(), Some("root"));
    assert!(db.user_has_role(10, &FlopRole::Admin));
    assert!(!db.user_has_role(11, &FlopRole::Admin));
    assert!(db.drain_dirty().is_empty());
    assert!(db.drain_removed().is_empty());
    assert!(db.drain_roles().is_empty());
}

#[test]
fn sync_plans_inserts_updates_and_deletes() {
    let mut db = FlopDB::init(
        vec![row(1, "maths", "add", "MessageCommand", Some(b"sum".to_vec()))],
        vec![
            RegistryRow::new(1, "root".to_string(), None),
            RegistryRow::new(7, "maths".to_string(), Some("root".to_string())),
        ],
        vec![UserRow {
            id: 10,
            roles: vec![FlopRole::Admin],
        }],
        &cli(),
    );
    db.add_command_at(
        "nowhere".to_string(),
        "New".to_string(),
        4,
        "Symlink".to_string(),
        123,
        CmdNode::Symlink {
            reg: "maths".to_string(),
            name: "add".to_string(),
        },
    );
    db.add_command_at(
        "maths".to_string(),
        "info".to_string(),
        4,
        "InfoCommand".to_string(),
        124,
        CmdNode::Cmd(CommandObject::Info(InfoCommand)),
    );
    db.mark_dirty("maths".to_string(), "add".to_string());
    db.mark_dirty("maths".to_string(), "gone".to_string());
    db.add_command_at(
        "maths".to_string(),
        "old".to_string(),
        4,
        "MessageCommand".to_string(),
        1,
        CmdNode::Subregistry("x".to_string()),
    );
    db.set_id("maths", "old", 50);
    db.remove_command("maths".to_string(), "old".to_string());
    db.give_role(10, FlopRole::GlobalMod);
    db.give_role(20, FlopRole::RegAdd("maths".to_string()));
    db.give_role(30, FlopRole::Admin);
    db.remove_role(30, FlopRole::Admin);
    let dirty = db.drain_dirty();
    let removed = db.drain_removed();
    let mut roles = db.drain_roles();
    roles.sort_by_key(|c| c.0);
    roles.push((99, SyncState::Dirty));
    roles.push((10, SyncState::Clean));
    let ops = db.sync(dirty, removed, roles);
    assert_eq!(ops.len(), 7);
    match &ops[0] {
        SyncOp::InsertCommand {
            registry,
            name,
            owner,
            ty,
            registry_id,
            added,
            data,
        } => {
            assert_eq!(registry, "nowhere");
            assert_eq!(name, "new");
            assert_eq!(*owner, 4);
            assert_eq!(ty, "Symlink");
            assert_eq!(*registry_id, 1);
            assert_eq!(*added, 123);
            assert_eq!(
                data,
                &Some(vec![
                    0x92, 0xa5, b'm', b'a', b't', b'h', b's', 0xa3, b'a', b'd', b'd'
                ])
            );
        }
        other => panic!("unexpected first write {:?}", other),
    }
    match &ops[1] {
        SyncOp::InsertCommand {
            name,
            registry_id,
            data,
            ..
        } => {
            assert_eq!(name, "info");
            assert_eq!(*registry_id, 7);
            assert_eq!(data, &None);
        }
        other => panic!("unexpected second write {:?}", other),
    }
    match &ops[2] {
        SyncOp::UpdateCommand {
            id,
            name,
            owner,
            ty,
            registry_id,
            data,
        } => {
            assert_eq!(*id, 1);
            assert_eq!(name, "add");
            assert_eq!(*owner, 9);
            assert_eq!(ty, "MessageCommand");
            assert_eq!(*registry_id, 7);
            assert_eq!(data, &Some(b"sum".to_vec()));
        }
        other => panic!("unexpected third write {:?}", other),
    }
    match &ops[3] {
        SyncOp::DeleteCommand { id } => assert_eq!(*id, 50),
        other => panic!("unexpected fourth write {:?}", other),
    }
    match &ops[4] {
        SyncOp::UpdateUser { user, roles } => {
            assert_eq!(*user, 10);
            assert_eq!(roles, &vec![FlopRole::Admin, FlopRole::GlobalMod]);
        }
        other => panic!("unexpected fifth write {:?}", other),
    }
    match &ops[5] {
        SyncOp::InsertUser { user, roles } => {
            assert_eq!(*user, 20);
            assert_eq!(roles, &vec![FlopRole::RegAdd("maths".to_string())]);
        }
        other => panic!("unexpected sixth write {:?}", other),
    }
    match &ops[6] {
        SyncOp::DeleteUser { user } => assert_eq!(*user, 30),
        other => panic!("unexpected seventh write {:?}", other),
    }
    assert!(db.set_id("nowhere", "new", 88));
    db.mark_dirty("nowhere".to_string(), "new".to_string());
    let again = db.drain_dirty();
    let ops = db.sync(again, Vec::new(), Vec::new());
    assert_eq!(ops.len(), 1);
    match &ops[0] {
        SyncOp::UpdateCommand { id, .. } => assert_eq!(*id, 88),
        other => panic!("unexpected write {:?}", other),
    }
}

#[test]
fn sync_of_nothing_plans_nothing() {
    let db = FlopDB::new();
    assert!(db.sync(Vec::new(), Vec::new(), Vec::new()).is_empty());
}

#[test]
fn sync_plans_role_changes_alone() {
    let mut db = FlopDB::new();
    db.give_role(1, FlopRole::Admin);
    let roles = db.drain_roles();
    let ops = db.sync(Vec::new(), Vec::new(), roles);
    assert_eq!(ops.len(), 1);
    match &ops[0] {
        SyncOp::InsertUser { user, roles } => {
            assert_eq!(*user, 1);
            assert_eq!(roles, &vec![FlopRole::Admin]);
        }
        other => panic!("unexpected write {:?}", other),
    }
}
