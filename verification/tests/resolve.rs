use floppa::command::{CommandObject, Execution, MessageCommand};
use floppa::config::Cli;
use floppa::db::FlopDB;
use floppa::handler::{handle_command, handle_command_with};
use floppa::message::{FlopMessagable, Message};
use floppa::node::CmdNode;
use floppa::registries::RegistryRow;
use floppa::resolve::{CanonicalisedStatus, CanonicalsedResult, COMMAND_SEARCH_DEPTH_LIMIT};

fn cli() -> Cli {
    Cli {
        run_dir: "/srv/floppa".to_string(),
    }
}

fn plain(text: &str) -> CmdNode {
    CmdNode::Cmd(CommandObject::Message(MessageCommand::new(FlopMessagable::Text(
        text.to_string(),
    ))))
}

fn link(reg: &str, name: &str) -> CmdNode {
    CmdNode::Symlink {
        reg: reg.to_string(),
        name: name.to_string(),
    }
}

fn put(db: &mut FlopDB, registry: &str, name: &str, ty: &str, node: CmdNode) {
    assert!(db
        .add_command_at(
            registry.to_string(),
            name.to_string(),
            1,
            ty.to_string(),
            100,
            node
        )
        .is_none());
}

fn pair(a: &str, b: &str) -> (String, String) {
    (a.to_string(), b.to_string())
}

fn user_message(content: &str) -> Message {
    Message {
        content: content.to_string(),
        author: 1,
        bot: false,
    }
}

fn reply_text(e: Option<Execution>) -> Option<String> {
    match e {
        Some(Execution::Reply(FlopMessagable::Text(t))) => Some(t),
        _ => None,
    }
}

#[test]
fn ping_resolves_and_answers_pong() {
    let mut db = FlopDB::new();
    put(&mut db, "root", "ping", "MessageCommand", plain("pong"));
    let res = db.canonicalise_command("root".to_string(), "ping".to_string());
    assert_eq!(res.status, CanonicalisedStatus::Success);
    assert_eq!(res.call, "ping");
    assert_eq!(res.stack, vec![pair("root", "ping")]);
    let answer = handle_command(&mut db, "!", "root", &user_message("!ping"));
    assert_eq!(reply_text(answer), Some("pong".to_string()));
    let again = handle_command_with(
        &mut db,
        "!",
        "root",
        &user_message("!PING  and more"),
        5,
        Ok(Vec::new()),
    );
    assert_eq!(reply_text(again), Some("pong".to_string()));
}

#[test]
fn two_links_in_a_circle_are_recursive() {
    let mut db = FlopDB::new();
    put(&mut db, "root", "a", "Symlink", link("root", "b"));
    put(&mut db, "root", "b", "Symlink", link("root", "a"));
    let res = db.canonicalise_command("root".to_string(), "a".to_string());
    assert_eq!(res.status, CanonicalisedStatus::Recursive);
    assert_eq!(
        res.stack,
        vec![pair("root", "a"), pair("root", "b"), pair("root", "a")]
    );
    assert!(res.stack.len() <= COMMAND_SEARCH_DEPTH_LIMIT);
    assert_eq!(res.call, "");
    let answer = handle_command(&mut db, "!", "root", &user_message("!a"));
    assert_eq!(
        reply_text(answer),
        Some("Recursive loop:\n`root:a` -> `root:b` -> `root:a` -> ".to_string())
    );
}

#[test]
fn link_to_itself_is_recursive() {
    let mut db = FlopDB::new();
    put(&mut db, "root", "a", "Symlink", link("root", "a"));
    let res = db.canonicalise_command("root".to_string(), "a".to_string());
    assert_eq!(res.status, CanonicalisedStatus::Recursive);
    assert_eq!(res.stack, vec![pair("root", "a"), pair("root", "a")]);
}

#[test]
fn subregistry_without_command_fails_as_subcommand() {
    let mut db = FlopDB::new();
    put(
        &mut db,
        "root",
        "math",
        "Subregistry",
        CmdNode::Subregistry("math".to_string()),
    );
    let res = db.canonicalise_command("root".to_string(), "  math  ".to_string());
    assert_eq!(res.status, CanonicalisedStatus::FailedSubcommand);
    assert_eq!(res.call, "math");
    assert_eq!(res.stack, vec![pair("root", "math")]);
    let answer = handle_command(&mut db, "f!", "root", &user_message("f!math"));
    assert_eq!(
        reply_text(answer),
        Some("2math is a registry, usage `2math [command name]`".to_string())
    );
}

#[test]
fn subregistry_takes_the_next_word() {
    let mut db = FlopDB::new();
    put(
        &mut db,
        "root",
        "math",
        "Subregistry",
        CmdNode::Subregistry("maths".to_string()),
    );
    put(&mut db, "maths", "add", "MessageCommand", plain("sum"));
    let res = db.canonicalise_command("root".to_string(), "Math   ADD 1 2".to_string());
    assert_eq!(res.status, CanonicalisedStatus::Success);
    assert_eq!(res.call, "Math ADD");
    assert_eq!(res.stack, vec![pair("root", "Math"), pair("maths", "ADD")]);
    let answer = handle_command(&mut db, "!", "root", &user_message("!math add 1 2"));
    assert_eq!(reply_text(answer), Some("sum".to_string()));
}

#[test]
fn link_leaves_the_call_text_alone() {
    let mut db = FlopDB::new();
    put(&mut db, "root", "p", "Symlink", link("root", "ping"));
    put(&mut db, "root", "ping", "MessageCommand", plain("pong"));
    let res = db.canonicalise_command("root".to_string(), "p x".to_string());
    assert_eq!(res.status, CanonicalisedStatus::Success);
    assert_eq!(res.call, "p");
    assert_eq!(res.stack, vec![pair("root", "p"), pair("root", "ping")]);
}

#[test]
fn link_to_subregistry_keeps_the_typed_words() {
    let mut db = FlopDB::new();
    put(&mut db, "root", "m", "Symlink", link("root", "math"));
    put(
        &mut db,
        "root",
        "math",
        "Subregistry",
        CmdNode::Subregistry("maths".to_string()),
    );
    put(&mut db, "maths", "plus", "Symlink", link("maths", "add"));
    put(&mut db, "maths", "add", "MessageCommand", plain("sum"));
    let res = db.canonicalise_command("root".to_string(), "M Plus 1 2".to_string());
    assert_eq!(res.status, CanonicalisedStatus::Success);
    assert_eq!(res.call, "M Plus");
    assert_eq!(
        res.stack,
        vec![
            pair("root", "M"),
            pair("root", "math"),
            pair("maths", "Plus"),
            pair("maths", "add")
        ]
    );
    let alone = db.canonicalise_command("root".to_string(), "m".to_string());
    assert_eq!(alone.status, CanonicalisedStatus::FailedSubcommand);
    assert_eq!(alone.call, "m");
}

#[test]
fn command_called_by_a_link_reads_its_arguments() {
    let mut db = FlopDB::new();
    let add = CmdNode::Cmd(floppa::command::construct("AddCommand", b"", &cli()).unwrap());
    put(&mut db, "root", "add", "AddCommand", add);
    put(&mut db, "root", "a", "Symlink", link("root", "add"));
    let answer = handle_command_with(
        &mut db,
        "!",
        "root",
        &user_message("!a hi there"),
        7,
        Ok(Vec::new()),
    );
    assert_eq!(reply_text(answer), Some("Added command `hi`".to_string()));
    assert_eq!(
        db.entry("root", "hi").unwrap().node().save(),
        Some(b"there".to_vec())
    );
}

#[test]
fn absent_name_is_looked_up_in_parent() {
    let mut db = FlopDB::new();
    db.add_registry(RegistryRow::new(1, "root".to_string(), None));
    db.add_registry(RegistryRow::new(2, "guild".to_string(), Some("root".to_string())));
    put(&mut db, "root", "ping", "MessageCommand", plain("pong"));
    let res = db.canonicalise_command("guild".to_string(), "ping".to_string());
    assert_eq!(res.status, CanonicalisedStatus::Success);
    assert_eq!(res.stack, vec![pair("guild", "ping"), pair("root", "ping")]);
    assert_eq!(res.call, "ping");
    let missing = db.canonicalise_command("guild".to_string(), "nope".to_string());
    assert_eq!(missing.status, CanonicalisedStatus::NotFound);
    assert_eq!(
        missing.stack,
        vec![pair("guild", "nope"), pair("root", "nope")]
    );
    let answer = handle_command(&mut db, "!", "guild", &user_message("!nope"));
    assert_eq!(
        reply_text(answer),
        Some("Cannot find command root:nope".to_string())
    );
    assert_eq!(db.get_registry("guild").unwrap().get_id(), 2);
    assert_eq!(db.get_registry("guild").unwrap().get_parent(), Some("root"));
    assert_eq!(db.get_registry("root").unwrap().get_name(), "root");
    assert!(db.get_registry("none").is_none());
}

#[test]
fn unknown_name_without_registry_is_not_found_and_answered() {
    let mut db = FlopDB::new();
    let res = db.canonicalise_command("root".to_string(), "nope".to_string());
    assert_eq!(res.status, CanonicalisedStatus::NotFound);
    assert_eq!(res.stack, vec![pair("root", "nope")]);
    assert_eq!(res.call, "");
    let answer = handle_command(&mut db, "!", "root", &user_message("!nope now"));
    assert_eq!(
        reply_text(answer),
        Some("Cannot find command root:nope".to_string())
    );
}

#[test]
fn call_without_a_word_is_answered() {
    let mut db = FlopDB::new();
    let answer = handle_command(&mut db, "!", "root", &user_message("!"));
    assert_eq!(reply_text(answer), Some("No command was given".to_string()));
    let spaces = handle_command(&mut db, "!", "root", &user_message("!  \t "));
    assert_eq!(reply_text(spaces), Some("No command was given".to_string()));
}

#[test]
fn broken_command_tells_that_it_is_broken() {
    let mut db = FlopDB::new();
    let node = CmdNode::Cmd(floppa::command::construct("NoSuchCommand", b"kept", &cli()).unwrap());
    put(&mut db, "root", "old", "NoSuchCommand", node);
    let answer = handle_command(&mut db, "!", "root", &user_message("!old"));
    assert_eq!(
        reply_text(answer),
        Some("⚠️**ERROR**⚠️ Broken Command".to_string())
    );
}

#[test]
fn empty_invocation_is_not_found() {
    let db = FlopDB::new();
    let res = db.canonicalise_command("root".to_string(), "   ".to_string());
    assert_eq!(res.status, CanonicalisedStatus::NotFound);
    assert!(res.stack.is_empty());
    assert_eq!(res.call, "");
    let fresh = CanonicalsedResult::default();
    assert_eq!(fresh.status, CanonicalisedStatus::NotFound);
    assert!(fresh.stack.is_empty());
    assert_eq!(CanonicalisedStatus::default(), CanonicalisedStatus::NotFound);
}

#[test]
fn long_chain_of_links_overflows() {
    let mut db = FlopDB::new();
    for i in 0..70 {
        put(
            &mut db,
            "root",
            &format!("l{}", i),
            "Symlink",
            link("root", &format!("l{}", i + 1)),
        );
    }
    let res = db.canonicalise_command("root".to_string(), "l0".to_string());
    assert_eq!(res.status, CanonicalisedStatus::Overflow);
    assert_eq!(res.stack.len(), COMMAND_SEARCH_DEPTH_LIMIT + 1);
    assert_eq!(res.stack[64], pair("root", "l64"));
    let answer = handle_command(&mut db, "!", "root", &user_message("!l0"));
    assert_eq!(
        reply_text(answer),
        Some("This command is nested too deep to be run".to_string())
    );
}

#[test]
fn chain_of_sixty_three_links_still_resolves() {
    let mut db = FlopDB::new();
    for i in 0..63 {
        put(
            &mut db,
            "root",
            &format!("l{}", i),
            "Symlink",
            link("root", &format!("l{}", i + 1)),
        );
    }
    put(&mut db, "root", "l63", "MessageCommand", plain("end"));
    let res = db.canonicalise_command("root".to_string(), "l0".to_string());
    assert_eq!(res.status, CanonicalisedStatus::Success);
    assert_eq!(res.stack.len(), 64);
    assert_eq!(res.call, "l0");
}

#[test]
fn messages_of_programs_and_without_prefix_are_ignored() {
    let mut db = FlopDB::new();
    put(&mut db, "root", "ping", "MessageCommand", plain("pong"));
    let from_bot = Message {
        content: "!ping".to_string(),
        author: 1,
        bot: true,
    };
    assert!(handle_command(&mut db, "!", "root", &from_bot).is_none());
    assert!(handle_command(&mut db, "!", "root", &user_message("ping")).is_none());
    assert!(handle_command(&mut db, "!", "root", &user_message("")).is_none());
}

#[test]
fn found_node_that_is_no_command_is_silent() {
    let mut db = FlopDB::new();
    put(&mut db, "root", "x", "MessageCommand", plain("pong"));
    assert!(db.set_node("root", "x", CmdNode::Cmd(CommandObject::Message(MessageCommand::new(FlopMessagable::_None)))));
    assert!(handle_command(&mut db, "!", "root", &user_message("!x")).is_none());
}
