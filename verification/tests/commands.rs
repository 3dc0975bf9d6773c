use floppa::command::{
    check_name, AddCommand, CmdCtx, CommandObject, EditCommand, Execution, FlopCountCommand,
    InfoCommand, LinkCommand, MessageCommand, RemoveCommand, RoleCommand, VersionCommand,
    WikiCommand,
};
use floppa::config::Cli;
use floppa::db::FlopDB;
use floppa::handler::handle_command_with;
use floppa::message::{FlopMessagable, Message};
use floppa::node::CmdNode;
use floppa::role::FlopRole;
use floppa::stuff::{mention, try_get_user};

fn cli() -> Cli {
    Cli {
        run_dir: "/srv/floppa".to_string(),
    }
}

fn add() -> AddCommand {
    AddCommand::construct(&cli(), b"").unwrap()
}

fn edit() -> EditCommand {
    EditCommand::construct(&cli(), b"").unwrap()
}

fn said(reply: FlopMessagable) -> String {
    match reply {
        FlopMessagable::Text(t) => t,
        FlopMessagable::_None => panic!("expected a text"),
    }
}

fn from(author: u64, content: &str) -> Message {
    Message {
        content: content.to_string(),
        author,
        bot: false,
    }
}

fn ctx<'a>(command: &'a str, name: &'a str) -> CmdCtx<'a> {
    CmdCtx {
        command,
        registry: "root",
        name,
        owner: 1,
        added: 50,
    }
}

fn plain(text: &str) -> CmdNode {
    CmdNode::Cmd(CommandObject::Message(MessageCommand::new(FlopMessagable::Text(
        text.to_string(),
    ))))
}

fn seeded() -> FlopDB {
    let mut db = FlopDB::new();
    db.add_command_at(
        "root".to_string(),
        "ping".to_string(),
        7,
        "MessageCommand".to_string(),
        1000,
        plain("pong"),
    );
    db.add_command_at(
        "maths".to_string(),
        "add".to_string(),
        8,
        "InfoCommand".to_string(),
        -5,
        CmdNode::Cmd(CommandObject::Info(InfoCommand)),
    );
    let _ = db.drain_dirty();
    db
}

#[test]
fn names_of_commands() {
    assert!(check_name("abc_DEF-123"));
    assert!(check_name(""));
    assert!(check_name("ünïcode"));
    assert!(!check_name("a b"));
    assert!(!check_name("a:b"));
    assert!(!check_name("a.b"));
}

#[test]
fn users_from_text() {
    assert_eq!(try_get_user("12345"), Some(12345));
    assert_eq!(try_get_user("18446744073709551615"), Some(u64::MAX));
    assert_eq!(try_get_user("18446744073709551616"), None);
    assert_eq!(try_get_user("0"), None);
    assert_eq!(try_get_user(""), None);
    assert_eq!(try_get_user("<@114941315417899012>"), Some(114941315417899012));
    assert_eq!(try_get_user("<@!42>"), Some(42));
    assert_eq!(try_get_user("<@&42>"), None);
    assert_eq!(try_get_user("<#42>"), None);
    assert_eq!(try_get_user("<@0>"), None);
    assert_eq!(try_get_user("bob"), None);
    assert_eq!(try_get_user("<@4é"), None);
    assert_eq!(mention(42), "<@42>");
    assert_eq!(mention(0), "<@0>");
}

#[test]
fn add_plain_text_command() {
    let mut db = seeded();
    let reply = add().execute_with(
        &from(3, "!add  Hello   hello there  world "),
        &ctx("!add", "add"),
        &mut db,
        2000,
        Ok(Vec::new()),
    );
    assert_eq!(said(reply), "Added command `Hello`");
    let e = db.entry("root", "hello").unwrap();
    assert_eq!(e.get_owner(), 3);
    assert_eq!(e.get_added(), 2000);
    assert_eq!(e.get_type(), "MessageCommand");
    assert_eq!(e.node().save(), Some(b"  hello there  world".to_vec()));
    assert_eq!(
        db.drain_dirty(),
        vec![("root".to_string(), "hello".to_string())]
    );
}

#[test]
fn add_turns_down_bad_calls() {
    let mut db = seeded();
    let usage = add().execute_with(
        &from(3, "!add onlyname"),
        &ctx("!add", "add"),
        &mut db,
        0,
        Ok(Vec::new()),
    );
    assert_eq!(
        said(usage),
        "Usage: `!add (name) (body)`\nor`!add (name) (--[type]) [json data]"
    );
    let bad_name = add().execute_with(
        &from(3, "!add a:b body"),
        &ctx("!add", "add"),
        &mut db,
        0,
        Ok(Vec::new()),
    );
    assert_eq!(
        said(bad_name),
        "Command names must consist of alphanumeric characters or `-`, `_`"
    );
    let taken = add().execute_with(
        &from(3, "!add PING body"),
        &ctx("!add", "add"),
        &mut db,
        0,
        Ok(Vec::new()),
    );
    assert_eq!(
        said(taken),
        "⚠️ `PING` is already a command, owned by <@7>"
    );
    assert!(db.drain_dirty().is_empty());
    assert_eq!(
        db.entry("root", "ping").unwrap().node().save(),
        Some(b"pong".to_vec())
    );
}

#[test]
fn add_typed_command() {
    let mut db = seeded();
    let reply = add().execute(
        &from(3, "!add about --[InfoCommand]"),
        &ctx("!add", "add"),
        &mut db,
    );
    assert_eq!(said(reply), "Added command `about`");
    let e = db.entry("root", "about").unwrap();
    assert_eq!(e.get_type(), "InfoCommand");
    assert_eq!(e.node().save(), None);
    let unknown = add().execute(
        &from(3, "!add other --[Nothing]"),
        &ctx("!add", "add"),
        &mut db,
    );
    assert_eq!(said(unknown), "⚠️ `Nothing` is not a valid command type");
    let short = add().execute(&from(3, "!add other --["), &ctx("!add", "add"), &mut db);
    assert_eq!(said(short), "⚠️ `` is not a valid command type");
    assert!(db.entry("root", "other").is_none());
}

#[test]
fn add_typed_command_with_json_data() {
    let mut db = seeded();
    let msg = from(3, "!add j --[MessageCommand]x \"hi\"");
    let context = ctx("!add", "add");
    assert_eq!(
        AddCommand::json_data(&msg, &context),
        Some("\"hi\"".to_string())
    );
    assert_eq!(
        AddCommand::transcode(&msg, &context),
        Ok(vec![0xa2, b'h', b'i'])
    );
    let reply = add().execute(&msg, &context, &mut db);
    assert_eq!(said(reply), "Added command `j`");
    let e = db.entry("root", "j").unwrap();
    assert_eq!(e.get_type(), "MessageCommand");
    assert_eq!(e.node().save(), Some("\u{fffd}hi".as_bytes().to_vec()));
    let broken = add().execute(
        &from(3, "!add k --[MessageCommand]x {oops"),
        &context,
        &mut db,
    );
    assert!(said(broken).starts_with("⚠️ Error deseralising json data: ```key must be a string"));
    assert!(db.entry("root", "k").is_none());
    let failed = add().execute_with(
        &from(3, "!add k --[MessageCommand]x 1"),
        &context,
        &mut db,
        0,
        Err("too deep".to_string()),
    );
    assert_eq!(
        said(failed),
        "⚠️ Error seralising msgpack data: ```too deep```"
    );
    assert_eq!(AddCommand::json_data(&from(3, "!add k body"), &context), None);
    assert_eq!(
        AddCommand::json_data(&from(3, "!add k --[InfoCommand]"), &context),
        None
    );
}

#[test]
fn edit_replaces_text_of_own_command() {
    let mut db = seeded();
    let context = ctx("!edit", "edit");
    let reply = edit().execute(&from(7, "!edit Ping  new text"), &context, &mut db);
    assert_eq!(said(reply), "Edited command `Ping`");
    assert_eq!(
        db.entry("root", "ping").unwrap().node().save(),
        Some(b" new text".to_vec())
    );
    assert_eq!(
        db.drain_dirty(),
        vec![("root".to_string(), "ping".to_string())]
    );
    let stranger = edit().execute(&from(8, "!edit ping x"), &context, &mut db);
    assert_eq!(said(stranger), "⚠️ `ping` is owned by <@7>");
    let missing = edit().execute(&from(7, "!edit nope x"), &context, &mut db);
    assert_eq!(said(missing), "⚠️ `nope` is not a command");
    let usage = edit().execute(&from(7, "!edit ping"), &context, &mut db);
    assert_eq!(said(usage), "Usage: `!edit (name) (body)`");
    let itself = edit().execute(&from(7, "!edit EDIT x"), &context, &mut db);
    assert_eq!(said(itself), "Insufficent perms to edit this command");
    db.add_command_at(
        "root".to_string(),
        "about".to_string(),
        7,
        "InfoCommand".to_string(),
        0,
        CmdNode::Cmd(CommandObject::Info(InfoCommand)),
    );
    let _ = db.drain_dirty();
    let not_text = edit().execute(&from(7, "!edit about x"), &context, &mut db);
    assert_eq!(said(not_text), "⚠️ `about` is not a text command");
    assert!(db.drain_dirty().is_empty());
}

#[test]
fn remove_own_command() {
    let mut db = seeded();
    db.set_id("root", "ping", 31);
    let context = ctx("!remove", "remove");
    let stranger = RemoveCommand.execute(&from(8, "!remove ping"), &context, &mut db);
    assert_eq!(
        said(stranger),
        "⚠️ Cannot remove command, `ping` is owned by <@7>"
    );
    let written_otherwise = RemoveCommand.execute(&from(7, "!remove Ping"), &context, &mut db);
    assert_eq!(said(written_otherwise), "Failed to delete command `Ping`");
    let reply = RemoveCommand.execute(&from(7, "!remove ping"), &context, &mut db);
    assert_eq!(said(reply), "Deleted command `ping`");
    assert!(db.entry("root", "ping").is_none());
    assert_eq!(db.drain_removed(), vec![31]);
    let missing = RemoveCommand.execute(&from(7, "!remove ping"), &context, &mut db);
    assert_eq!(said(missing), "⚠️ Failed to find command `ping`");
    let elsewhere = RemoveCommand.execute(&from(7, "!remove maths:sub"), &context, &mut db);
    assert_eq!(
        said(elsewhere),
        "⚠️ Failed to find command `sub` in registry `maths`"
    );
    let other_registry = RemoveCommand.execute(&from(8, "!remove maths:add"), &context, &mut db);
    assert_eq!(said(other_registry), "Deleted command `add`");
    let usage = RemoveCommand.execute(&from(7, "!remove   "), &context, &mut db);
    assert_eq!(said(usage), "Usage !remove [registry:](command)");
    let itself = RemoveCommand.execute(&from(7, "!remove root:REMOVE"), &context, &mut db);
    assert_eq!(said(itself), "Insufficent perms to remove this command");
}

#[test]
fn info_about_commands() {
    let db = seeded();
    let context = ctx("!info", "info");
    let here = InfoCommand.execute(&from(1, "!info PING"), &context, &db);
    assert_eq!(
        said(here),
        "Command `ping` was added at <t:1000:f>, and is owned by <@7>"
    );
    let there = InfoCommand.execute(&from(1, "!info maths:add"), &context, &db);
    assert_eq!(
        said(there),
        "Command `add` in registry `maths` was added at <t:-5:f>, and is owned by <@8>"
    );
    let missing = InfoCommand.execute(&from(1, "!info maths:nope"), &context, &db);
    assert_eq!(
        said(missing),
        "⚠️ Failed to find command `nope` in registry `maths`"
    );
    let usage = InfoCommand.execute(&from(1, "!info"), &context, &db);
    assert_eq!(said(usage), "Usage !info [registry:](command)");
    let mut with_info = seeded();
    with_info.add_command_at(
        "root".to_string(),
        "info".to_string(),
        2,
        "InfoCommand".to_string(),
        3,
        CmdNode::Cmd(CommandObject::Info(InfoCommand)),
    );
    let itself = InfoCommand.execute(&from(1, "!info Info"), &context, &with_info);
    assert_eq!(
        said(itself),
        "Command `info` was added at <t:50:f>, and is owned by <@1>"
    );
}

#[test]
fn link_needs_the_role_to_add() {
    let mut db = seeded();
    let context = ctx("!link", "link");
    let denied = LinkCommand.execute_at(&from(3, "!link p ping"), &context, &mut db, 9);
    assert_eq!(said(denied), ":clueless:");
    db.give_role(3, FlopRole::RegAdd("root".to_string()));
    let reply = LinkCommand.execute_at(&from(3, "!link P ping"), &context, &mut db, 9);
    assert_eq!(said(reply), "Added link to `ping` called `P`");
    let e = db.entry("root", "p").unwrap();
    assert_eq!(e.get_type(), "Symlink");
    assert_eq!(e.get_owner(), 3);
    assert_eq!(e.get_added(), 9);
    match e.node() {
        CmdNode::Symlink { reg, name } => {
            assert_eq!(reg, "root");
            assert_eq!(name, "ping");
        }
        _ => panic!("expected a link"),
    }
    let far = LinkCommand.execute(&from(3, "!link plus maths:ADD"), &context, &mut db);
    assert_eq!(said(far), "Added link to `ADD` called `plus`");
    let taken = LinkCommand.execute(&from(3, "!link ping ping"), &context, &mut db);
    assert_eq!(
        said(taken),
        "⚠️ `ping` is already a command, owned by <@7>"
    );
    let nowhere = LinkCommand.execute(&from(3, "!link q nope"), &context, &mut db);
    assert_eq!(said(nowhere), "`⚠️ root:nope` doesnt exist");
    let bad = LinkCommand.execute(&from(3, "!link a.b ping"), &context, &mut db);
    assert_eq!(
        said(bad),
        "Command names must consist of alphanumeric characters or `-`, `_`"
    );
    let usage = LinkCommand.execute(&from(3, "!link q"), &context, &mut db);
    assert_eq!(said(usage), "Usage: `!link (name) [registry:](destination`");
}

#[test]
fn role_command_grants_and_revokes() {
    let mut db = seeded();
    let context = ctx("!role", "role");
    let denied = RoleCommand.execute(&from(1, "!role 5 admin"), &context, &mut db);
    assert_eq!(said(denied), ":clueless:");
    db.give_role(1, FlopRole::Admin);
    let granted = RoleCommand.execute(&from(1, "!role <@5> RegMod(maths)"), &context, &mut db);
    assert_eq!(said(granted), "Gave role to `<@5>`");
    assert!(db.user_has_role(5, &FlopRole::RegMod("maths".to_string())));
    let revoked = RoleCommand.execute(&from(1, "!role 5 -r regmod(maths)"), &context, &mut db);
    assert_eq!(said(revoked), "Gave role to `<@5>`");
    assert!(!db.user_has_role(5, &FlopRole::RegMod("maths".to_string())));
    db.give_role(5, FlopRole::GlobalMod);
    let after = RoleCommand.execute(&from(1, "!role 5 globalmod -r"), &context, &mut db);
    assert_eq!(said(after), "Gave role to `<@5>`");
    assert!(!db.user_has_role(5, &FlopRole::GlobalMod));
    let nobody = RoleCommand.execute(&from(1, "!role bob admin"), &context, &mut db);
    assert_eq!(
        said(nobody),
        "Could not find user, only mentions or id is valid"
    );
    let unknown = RoleCommand.execute(&from(1, "!role 5 king"), &context, &mut db);
    assert_eq!(said(unknown), "Didn't understand role `king`");
    let usage = "Usage: `!role (user) (role)` or `!role (user) -r (role)` to remove role";
    let short = RoleCommand.execute(&from(1, "!role 5"), &context, &mut db);
    assert_eq!(said(short), usage);
    let dangling = RoleCommand.execute(&from(1, "!role 5 -r"), &context, &mut db);
    assert_eq!(said(dangling), usage);
}

#[test]
fn wiki_builds_the_search_address() {
    let context = ctx("!wiki", "wiki");
    match WikiCommand::request(&from(1, "!wiki  rust   language\t"), &context) {
        Ok(url) => assert_eq!(
            url,
            "https://en.wikipedia.org/w/api.php?action=query&format=json&list=search&srsearch=rust+++language"
        ),
        Err(_) => panic!("expected an address"),
    }
    match WikiCommand::request(&from(1, "!wiki   "), &context) {
        Err(reply) => assert_eq!(said(reply), "Missing argument for wiki lookup"),
        Ok(_) => panic!("expected an answer"),
    }
    assert_eq!(
        said(WikiCommand::reply(Some("Rust"))),
        "https://en.wikipedia.org/wiki/Rust"
    );
    assert_eq!(said(WikiCommand::reply(None)), "Could not find page.");
    assert_eq!(
        said(WikiCommand::unreadable("eof")),
        "Failed to decode response from Wikipedia:\n```eof```"
    );
}

#[test]
fn version_and_count_answers() {
    assert_eq!(
        said(VersionCommand::reply(Some("Floppa"), "1.2.3", "")),
        "Floppa is running on version `1.2.3`"
    );
    assert_eq!(
        said(VersionCommand::reply(None, "1.2.3", "abc")),
        "Issue Flop is running on version `1.2.3`, commit `abc`"
    );
    assert_eq!(
        said(FlopCountCommand::reply(12)),
        "12 flops reacted to since last reset"
    );
    assert_eq!(
        said(FlopCountCommand::reply(-3)),
        "-3 flops reacted to since last reset"
    );
    assert_eq!(
        said(FlopCountCommand::reply(i32::MIN)),
        "-2147483648 flops reacted to since last reset"
    );
}

#[test]
fn commands_run_through_the_handler() {
    let mut db = seeded();
    for (name, ty) in [
        ("add", "AddCommand"),
        ("wiki", "WikiCommand"),
        ("version", "VersionCommand"),
        ("flops", "FlopCountCommand"),
        ("stoik", "StoikCommand"),
    ] {
        let node = CmdNode::Cmd(floppa::command::construct(ty, b"", &cli()).unwrap());
        db.add_command_at(
            "root".to_string(),
            name.to_string(),
            1,
            ty.to_string(),
            0,
            node,
        );
    }
    let added = handle_command_with(&mut db, "f!", "root", &from(3, "f!ADD hi there"), 77, Ok(vec![]));
    match added {
        Some(Execution::Reply(FlopMessagable::Text(t))) => assert_eq!(t, "Added command `hi`"),
        other => panic!("unexpected {:?}", other),
    }
    let usage = handle_command_with(&mut db, "f!", "root", &from(3, "f!Add hi"), 78, Ok(vec![]));
    match usage {
        Some(Execution::Reply(FlopMessagable::Text(t))) => {
            assert_eq!(t, "Usage: `f!Add (name) (body)`\nor`f!Add (name) (--[type]) [json data]")
        }
        other => panic!("unexpected {:?}", other),
    }
    assert_eq!(db.entry("root", "hi").unwrap().get_added(), 77);
    match handle_command_with(&mut db, "f!", "root", &from(3, "f!wiki a b"), 0, Ok(vec![])) {
        Some(Execution::Wiki { url }) => assert!(url.ends_with("srsearch=a+b")),
        other => panic!("unexpected {:?}", other),
    }
    assert!(matches!(
        handle_command_with(&mut db, "f!", "root", &from(3, "f!version"), 0, Ok(vec![])),
        Some(Execution::Version)
    ));
    assert!(matches!(
        handle_command_with(&mut db, "f!", "root", &from(3, "f!flops"), 0, Ok(vec![])),
        Some(Execution::FlopCount)
    ));
    match handle_command_with(
        &mut db,
        "f!",
        "root",
        &from(3, "f!stoik 2H2 + O2 => 2H2O"),
        0,
        Ok(vec![]),
    ) {
        Some(Execution::Stoik {
            reactants,
            products,
        }) => {
            assert_eq!(reactants, vec!["2H2".to_string(), "O2".to_string()]);
            assert_eq!(products, vec!["2H2O".to_string()]);
        }
        other => panic!("unexpected {:?}", other),
    }
    match handle_command_with(&mut db, "f!", "root", &from(3, "f!stoik H2O"), 0, Ok(vec![])) {
        Some(Execution::Reply(FlopMessagable::Text(t))) => assert_eq!(
            t,
            "Products are not given, please use `=>` or `->` to seperate the two sides"
        ),
        other => panic!("unexpected {:?}", other),
    }
}
