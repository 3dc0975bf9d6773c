use floppa::cache::{ResponseCache, RESPONSE_CACHE_SIZE};
use floppa::command::stoik::{extend_mol_map, Atoms, StoikPlan};
use floppa::command::{CmdCtx, StoikCommand};
use floppa::config::{ConfigEmoji, DataHolder, FlopConfig};
use floppa::message::{FlopMessagable, Message};
use floppa::reaction::{contains, fomat_reaction_string, reacts};
use floppa::text::{some_piece_is, space_out, split_char};
use floppa::text_cmds::{called_name, hears};
use floppa::util::{report_error, send_text, Outgoing};

fn call(content: &str) -> Message {
    Message {
        content: content.to_string(),
        author: 1,
        bot: false,
    }
}

fn stoik_ctx<'a>() -> CmdCtx<'a> {
    CmdCtx {
        command: "!stoik",
        registry: "root",
        name: "stoik",
        owner: 1,
        added: 0,
    }
}

fn atoms(pairs: &[(&str, i64)]) -> Atoms {
    pairs.iter().map(|(k, n)| (k.to_string(), *n)).collect()
}

#[test]
fn reaction_form_of_texts() {
    assert_eq!(fomat_reaction_string("f l  oo p"), "flop");
    assert_eq!(fomat_reaction_string("fflloopp"), "flop");
    assert_eq!(fomat_reaction_string("a a"), "a");
    assert_eq!(fomat_reaction_string("aXa"), "aXa");
    assert_eq!(fomat_reaction_string(""), "");
    assert_eq!(fomat_reaction_string(" \t\n"), "");
    let std_form = |text: &str| {
        let mut chars: Vec<char> = text.chars().filter(|x| !x.is_whitespace()).collect();
        chars.dedup();
        chars.into_iter().collect::<String>()
    };
    for s in ["big  ffllooopppa", "é é è", "x\u{2003}x y", "aab ba"] {
        assert_eq!(fomat_reaction_string(s), std_form(s));
    }
}

#[test]
fn texts_inside_texts() {
    assert!(contains("big floppa", "flop"));
    assert!(contains("flop", "flop"));
    assert!(contains("flop", ""));
    assert!(contains("", ""));
    assert!(!contains("", "a"));
    assert!(!contains("flo", "flop"));
    assert!(!contains("fl op", "flop"));
    assert!(contains("ééflop", "éf"));
    assert!(reacts("what a F L O O P", "L O"));
    assert!(reacts("fl  oo\tp", "flop"));
    assert!(!reacts("flap", "flop"));
}

#[test]
fn cache_forgets_smallest_when_full() {
    let mut cache = ResponseCache::new();
    assert_eq!(cache.get(1), None);
    assert_eq!(cache.insert(10, 100), None);
    assert_eq!(cache.insert(10, 101), Some(100));
    assert_eq!(cache.get(10), Some(101));
    for i in 0..(RESPONSE_CACHE_SIZE as u64 - 2) {
        assert_eq!(cache.insert(1000 + i, i), None);
    }
    assert_eq!(cache.get(10), Some(101));
    assert_eq!(cache.insert(5000, 1), None);
    assert_eq!(cache.get(10), None);
    assert_eq!(cache.get(1000), Some(0));
    assert_eq!(cache.get(5000), Some(1));
    assert_eq!(cache.insert(3, 4), None);
    assert_eq!(cache.get(3), None);
    assert_eq!(cache.get(1000), Some(0));
    assert_eq!(cache.insert(1000, 9), Some(0));
    assert_eq!(cache.get(1000), Some(9));
    assert_eq!(cache.insert(6000, 2), None);
    assert_eq!(cache.get(1000), None);
    assert_eq!(cache.get(1001), Some(1));
}

#[test]
fn long_texts_go_out_as_files() {
    match send_text("short".to_string()) {
        Outgoing::Content(t) => assert_eq!(t, "short"),
        other => panic!("unexpected {:?}", other),
    }
    match send_text("x".repeat(2000)) {
        Outgoing::Content(t) => assert_eq!(t.len(), 2000),
        other => panic!("unexpected {:?}", other),
    }
    match send_text("x".repeat(2001)) {
        Outgoing::File { filename, data } => {
            assert_eq!(filename, "result.txt");
            assert_eq!(data.len(), 2001);
        }
        other => panic!("unexpected {:?}", other),
    }
    match send_text("é".repeat(1001)) {
        Outgoing::File { data, .. } => assert_eq!(data.len(), 2002),
        other => panic!("unexpected {:?}", other),
    }
}

#[test]
fn errors_with_their_causes() {
    assert_eq!(
        report_error("boom", &Vec::new(), "Error sending message"),
        "Error sending message: boom"
    );
    assert_eq!(
        report_error(
            "boom",
            &vec!["Io(1)".to_string(), "Os(2)".to_string()],
            "ctx"
        ),
        "ctx: boom; Caused by: Io(1); Caused by: Os(2)"
    );
}

#[test]
fn parts_and_pieces() {
    assert_eq!(split_char("a+b++c", '+'), vec!["a", "b", "", "c"]);
    assert_eq!(split_char("", '+'), vec![""]);
    assert_eq!(split_char("+", '+'), vec!["", ""]);
    assert_eq!(split_char("abc", '+'), vec!["abc"]);
    assert_eq!(space_out("a\tb\u{2003}c d"), "a b c d");
    assert!(some_piece_is("a -h b", "-h"));
    assert!(some_piece_is("-h", "-h"));
    assert!(some_piece_is("a  b", ""));
    assert!(some_piece_is("", ""));
    assert!(!some_piece_is("a-h b", "-h"));
    assert!(!some_piece_is("ab", ""));
}

#[test]
fn stoik_reads_an_equation() {
    let ctx = stoik_ctx();
    match StoikCommand::plan(&call("!stoik  2H2 +  O2 \t=> 2H2O "), &ctx) {
        StoikPlan::Balance {
            reactants,
            products,
        } => {
            assert_eq!(reactants, vec!["2H2", "O2"]);
            assert_eq!(products, vec!["2H2O"]);
        }
        other => panic!("unexpected {:?}", other),
    }
    match StoikCommand::plan(&call("!stoik A->B=>C+D"), &ctx) {
        StoikPlan::Balance {
            reactants,
            products,
        } => {
            assert_eq!(reactants, vec!["A"]);
            assert_eq!(products, vec!["B->C", "D"]);
        }
        other => panic!("unexpected {:?}", other),
    }
    match StoikCommand::plan(&call("!stoik ->"), &ctx) {
        StoikPlan::Balance {
            reactants,
            products,
        } => {
            assert_eq!(reactants, vec![""]);
            assert_eq!(products, vec![""]);
        }
        other => panic!("unexpected {:?}", other),
    }
    assert!(matches!(
        StoikCommand::plan(&call("!stoik H2O = H2O"), &ctx),
        StoikPlan::NoProducts
    ));
    assert!(matches!(
        StoikCommand::plan(&call("!stoik"), &ctx),
        StoikPlan::NoProducts
    ));
    assert!(matches!(
        StoikCommand::plan(&call("!stoik A -> B --help"), &ctx),
        StoikPlan::Help
    ));
    assert!(matches!(
        StoikCommand::plan(&call("!stoik -h"), &ctx),
        StoikPlan::Help
    ));
    match StoikCommand::answer(&StoikPlan::Help) {
        Some(FlopMessagable::Text(t)) => assert!(t.starts_with("Usage: stoik [FLAGS]")),
        _ => panic!("expected the help text"),
    }
    assert!(StoikCommand::answer(&StoikPlan::Balance {
        reactants: vec![],
        products: vec![]
    })
    .is_none());
    match StoikCommand::malformed("bad") {
        FlopMessagable::Text(t) => assert_eq!(t, "```bad```"),
        _ => panic!("expected a text"),
    }
}

#[test]
fn atoms_add_up() {
    let mut side = atoms(&[("H", 4)]);
    extend_mol_map(&mut side, &atoms(&[("O", 2), ("H", 1), ("O", 1)]));
    assert_eq!(side, atoms(&[("H", 5), ("O", 3)]));
    let mut wide = atoms(&[("H", i64::MAX)]);
    extend_mol_map(&mut wide, &atoms(&[("H", 1)]));
    assert_eq!(wide, atoms(&[("H", i64::MIN)]));
}

#[test]
fn balance_of_two_sides() {
    let even = StoikCommand::balance(&atoms(&[("H", 4), ("O", 2)]), &atoms(&[("O", 2), ("H", 4)]));
    assert!(even.balanced);
    assert_eq!(even.title, "✅ Your reaction is balanced ✅");
    assert_eq!(even.reactants, "```\n4\n2```");
    assert_eq!(even.products, "```\n4\n2```");
    assert_eq!(even.marks, "```✅✅\n✅✅\n```");
    let odd = StoikCommand::balance(&atoms(&[("H", 2), ("O", 2)]), &atoms(&[("H", 2), ("C", 0)]));
    assert!(!odd.balanced);
    assert_eq!(odd.title, "❌ Your reaction is unbalanced ❌");
    assert_eq!(odd.reactants, "```\n2\n2\n0```");
    assert_eq!(odd.products, "```\n2\n0\n0```");
    assert_eq!(odd.marks, "```✅✅\n❌❌\n❌❌\n```");
    let none = StoikCommand::balance(&Vec::new(), &Vec::new());
    assert!(none.balanced);
    assert_eq!(none.marks, "``````");
}

#[test]
fn first_generation_reads_the_called_name() {
    assert_eq!(called_name("!Ping now", '!'), Some("ping".to_string()));
    assert_eq!(called_name("!ping", '!'), Some("ping".to_string()));
    assert_eq!(called_name("!", '!'), Some(String::new()));
    assert_eq!(called_name("! x", '!'), Some(String::new()));
    assert_eq!(called_name("ping", '!'), None);
    assert_eq!(called_name("", '!'), None);
    assert_eq!(called_name(" x", ' '), Some(String::new()));
    assert_eq!(called_name("éPing\tx y", 'é'), Some("ping\tx".to_string()));
    assert!(hears("f l o p", "flop"));
    assert!(hears("ffllooopp", "flop"));
    assert!(hears("a a", "aa"));
    assert!(hears("a  a", "aa"));
    assert!(!hears("aa", "aa"));
    assert!(!hears("flap", "flop"));
}

#[test]
fn settings_holder_hands_out_copies() {
    let cfg = FlopConfig {
        emote: ConfigEmoji::default(),
        prefix: '!',
        message_cache_size: 5,
        error_channel: 9,
    };
    let mut holder = DataHolder::new(cfg);
    let copy = holder.get_cfg();
    assert_eq!(copy.prefix, '!');
    assert_eq!(copy.message_cache_size, 5);
    assert_eq!(copy.error_channel, 9);
    assert_eq!(copy.emote.name, "flop");
    let mut other = holder.get_cfg();
    other.prefix = '?';
    other.emote.phrase = "flip".to_string();
    holder.set_cfg(other);
    assert_eq!(holder.get_cfg().prefix, '?');
    assert_eq!(holder.get_cfg().emote.phrase, "flip");
    assert_eq!(copy.emote.phrase, "flop");
}
