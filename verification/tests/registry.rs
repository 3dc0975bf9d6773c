use floppa::command::{CommandObject, MessageCommand};
use floppa::db::FlopDB;
use floppa::message::FlopMessagable;
use floppa::node::CmdNode;

fn text_node(text: &str) -> CmdNode {
    CmdNode::Cmd(CommandObject::Message(MessageCommand::new(FlopMessagable::Text(
        text.to_string(),
    ))))
}

fn sorted(mut keys: Vec<(String, String)>) -> Vec<(String, String)> {
    keys.sort();
    keys
}

#[test]
fn insert_then_get_ignores_case() {
    let mut db = FlopDB::new();
    let rejected = db.add_command_at(
        "root".to_string(),
        "Foo".to_string(),
        7,
        "MessageCommand".to_string(),
        1000,
        text_node("bar"),
    );
    assert!(rejected.is_none());
    let lower = db.get_command("root".to_string(), "foo".to_string());
    assert!(lower.is_some());
    assert_eq!(lower.unwrap().get_name(), "foo");
    assert_eq!(lower.unwrap().get_owner(), 7);
    assert_eq!(lower.unwrap().get_added(), 1000);
    assert_eq!(lower.unwrap().get_registry(), "root");
    assert_eq!(lower.unwrap().get_type(), "MessageCommand");
    assert_eq!(lower.unwrap().get_id(), None);
    assert!(db.get_command("root".to_string(), "FOO".to_string()).is_some());
    assert!(db.get_command("root".to_string(), "Foo".to_string()).is_some());
    assert!(db.get_command("other".to_string(), "foo".to_string()).is_none());
    assert!(db.command_exists("root".to_string(), "fOO"));
    assert!(!db.command_exists("root".to_string(), "fo"));
}

#[test]
fn second_insert_is_rejected_and_first_entry_stays() {
    let mut db = FlopDB::new();
    assert!(db
        .add_command_at(
            "root".to_string(),
            "Foo".to_string(),
            7,
            "MessageCommand".to_string(),
            1000,
            text_node("first"),
        )
        .is_none());
    let _ = db.drain_dirty();
    let in_the_way = db.add_command_at(
        "root".to_string(),
        "FOO".to_string(),
        8,
        "Symlink".to_string(),
        2000,
        CmdNode::Subregistry("x".to_string()),
    );
    let in_the_way = in_the_way.expect("the second insert must be rejected");
    assert_eq!(in_the_way.get_owner(), 7);
    assert_eq!(in_the_way.get_added(), 1000);
    let kept = db.get_command("root".to_string(), "foo".to_string()).unwrap();
    assert_eq!(kept.get_owner(), 7);
    assert_eq!(kept.get_type(), "MessageCommand");
    assert_eq!(kept.node().save(), Some(b"first".to_vec()));
    assert!(db.drain_dirty().is_empty());
}

#[test]
fn add_command_reads_the_clock() {
    let mut db = FlopDB::new();
    assert!(db
        .add_command(
            "root".to_string(),
            "now".to_string(),
            1,
            "MessageCommand".to_string(),
            text_node("x"),
        )
        .is_none());
    let added = db
        .get_command("root".to_string(), "now".to_string())
        .unwrap()
        .get_added();
    assert!(added > 1_600_000_000);
}

#[test]
fn drain_dirty_hands_out_each_key_once() {
    let mut db = FlopDB::new();
    db.add_command_at(
        "root".to_string(),
        "a".to_string(),
        1,
        "MessageCommand".to_string(),
        0,
        text_node("x"),
    );
    db.mark_dirty("root".to_string(), "a".to_string());
    db.mark_dirty("root".to_string(), "b".to_string());
    db.mark_dirty("root".to_string(), "b".to_string());
    let first = sorted(db.drain_dirty());
    assert_eq!(
        first,
        vec![
            ("root".to_string(), "a".to_string()),
            ("root".to_string(), "b".to_string())
        ]
    );
    assert!(db.drain_dirty().is_empty());
}

#[test]
fn insert_between_drains_shows_in_second_drain_only() {
    let mut db = FlopDB::new();
    db.add_command_at(
        "root".to_string(),
        "old".to_string(),
        1,
        "MessageCommand".to_string(),
        0,
        text_node("x"),
    );
    let first = db.drain_dirty();
    assert_eq!(first, vec![("root".to_string(), "old".to_string())]);
    db.add_command_at(
        "root".to_string(),
        "New".to_string(),
        1,
        "MessageCommand".to_string(),
        0,
        text_node("y"),
    );
    let second = db.drain_dirty();
    assert_eq!(second, vec![("root".to_string(), "new".to_string())]);
    assert!(db.drain_dirty().is_empty());
}

#[test]
fn remove_takes_the_name_as_written() {
    let mut db = FlopDB::new();
    db.add_command_at(
        "root".to_string(),
        "Foo".to_string(),
        1,
        "MessageCommand".to_string(),
        0,
        text_node("x"),
    );
    assert!(!db.remove_command("root".to_string(), "Foo".to_string()));
    assert!(db.command_exists("root".to_string(), "foo"));
    assert!(db.remove_command("root".to_string(), "foo".to_string()));
    assert!(!db.command_exists("root".to_string(), "foo"));
    assert!(!db.remove_command("root".to_string(), "foo".to_string()));
    assert!(db.drain_removed().is_empty());
}

#[test]
fn remove_notes_the_stored_row() {
    let mut db = FlopDB::new();
    db.add_command_at(
        "root".to_string(),
        "a".to_string(),
        1,
        "MessageCommand".to_string(),
        0,
        text_node("x"),
    );
    db.add_command_at(
        "root".to_string(),
        "b".to_string(),
        1,
        "MessageCommand".to_string(),
        0,
        text_node("y"),
    );
    assert!(db.set_id("root", "a", 41));
    assert!(db.set_id("root", "b", 42));
    assert!(!db.set_id("root", "c", 43));
    assert_eq!(
        db.get_command("root".to_string(), "a".to_string())
            .unwrap()
            .get_id(),
        Some(41)
    );
    assert!(db.remove_command("root".to_string(), "b".to_string()));
    assert!(db.remove_command("root".to_string(), "a".to_string()));
    assert_eq!(db.drain_removed(), vec![42, 41]);
    assert!(db.drain_removed().is_empty());
}

#[test]
fn set_node_replaces_the_payload_only() {
    let mut db = FlopDB::new();
    db.add_command_at(
        "root".to_string(),
        "a".to_string(),
        5,
        "MessageCommand".to_string(),
        9,
        text_node("x"),
    );
    assert!(db.set_node("root", "a", text_node("changed")));
    assert!(!db.set_node("root", "A", text_node("nope")));
    let e = db.entry("root", "a").unwrap();
    assert_eq!(e.node().save(), Some(b"changed".to_vec()));
    assert_eq!(e.get_owner(), 5);
    assert_eq!(e.get_added(), 9);
}

#[test]
fn entry_node_can_be_changed_in_place() {
    let mut db = FlopDB::new();
    db.add_command_at(
        "root".to_string(),
        "a".to_string(),
        5,
        "MessageCommand".to_string(),
        9,
        text_node("x"),
    );
    let mut copy = db.entry("root", "a").unwrap().clone();
    *copy.get_node() = CmdNode::Subregistry("math".to_string());
    assert_eq!(copy.node().save(), Some(b"math".to_vec()));
    assert_eq!(copy.get_name(), "a");
    assert_eq!(
        db.entry("root", "a").unwrap().node().save(),
        Some(b"x".to_vec())
    );
}
