use floppa::config::{ConfigEmoji, Config, EmojiConfig, LoggingConfig};
use floppa::log::{colour_from_level, level_from_str, more_severe, name_of, FlopLog, Level};
use floppa::number::{i64_to_string, is_all_digits, parse_u64, u64_to_string};
use floppa::text::{
    chars_of, is_whitespace, join3, join5, split_once, split_once_whitespace, split_whitespace, starts_with,
    substring, trim, trim_end_matches, trim_start_matches,
};
use floppa::text_cmds::{SleepCmd, TextCmd};

#[test]
fn words_as_std_splits_them() {
    let samples = [
        "",
        "   ",
        "one",
        " one  two\tthree\n",
        "a\u{a0}b\u{2003}c",
        "ünï çødé  ⚠️ x",
        "trailing ",
    ];
    for s in samples {
        let expected: Vec<String> = s.split_whitespace().map(|w| w.to_string()).collect();
        assert_eq!(split_whitespace(s), expected, "for {:?}", s);
        assert_eq!(trim(s), s.trim(), "for {:?}", s);
        assert_eq!(chars_of(s), s.chars().collect::<Vec<char>>());
    }
}

#[test]
fn white_space_is_what_std_calls_white_space() {
    let mut count = 0;
    for n in 0..=0x10ffffu32 {
        if let Some(c) = char::from_u32(n) {
            assert_eq!(is_whitespace(c), c.is_whitespace(), "for U+{:04X}", n);
            if is_whitespace(c) {
                count += 1;
            }
        }
    }
    assert_eq!(count, 25);
}

#[test]
fn splitting_once() {
    assert_eq!(
        split_once("a:b:c", ':'),
        Some(("a".to_string(), "b:c".to_string()))
    );
    assert_eq!(split_once(":x", ':'), Some((String::new(), "x".to_string())));
    assert_eq!(split_once("x:", ':'), Some(("x".to_string(), String::new())));
    assert_eq!(split_once("abc", ':'), None);
    assert_eq!(split_once("", ':'), None);
    assert_eq!(
        split_once_whitespace("name  body text"),
        Some(("name".to_string(), " body text".to_string()))
    );
    assert_eq!(
        split_once_whitespace("é\u{2003}x"),
        Some(("é".to_string(), "x".to_string()))
    );
    assert_eq!(split_once_whitespace("name"), None);
}

#[test]
fn prefixes_and_suffixes() {
    assert!(starts_with("!add x", "!add"));
    assert!(starts_with("abc", ""));
    assert!(!starts_with("ab", "abc"));
    assert!(!starts_with("xbc", "abc"));
    assert_eq!(trim_start_matches("!a!a!b", "!a"), "!b");
    assert_eq!(trim_start_matches("abc", ""), "abc");
    assert_eq!(trim_start_matches("aaa", "a"), "");
    assert_eq!(trim_start_matches("xabc", "abc"), "xabc");
    assert_eq!(trim_end_matches("x))", ')'), "x");
    assert_eq!(trim_end_matches(")))", ')'), "");
    assert_eq!(trim_end_matches("a)b", ')'), "a)b");
    assert_eq!(substring("héllo", 1, 3), "él");
    assert_eq!(join3("a", "b", "c"), "abc");
    assert_eq!(join5("a", "", "c", "d", "é"), "acdé");
}

#[test]
fn numbers_in_decimal() {
    assert_eq!(u64_to_string(0), "0");
    assert_eq!(u64_to_string(7), "7");
    assert_eq!(u64_to_string(10), "10");
    assert_eq!(u64_to_string(1234567890), "1234567890");
    assert_eq!(u64_to_string(u64::MAX), "18446744073709551615");
    assert_eq!(i64_to_string(0), "0");
    assert_eq!(i64_to_string(-1), "-1");
    assert_eq!(i64_to_string(i64::MAX), "9223372036854775807");
    assert_eq!(i64_to_string(i64::MIN), "-9223372036854775808");
    assert_eq!(floppa::number::test(-7), -7);
    assert_eq!(floppa::number::test(i16::MAX), 32767);
    assert_eq!(floppa::number::test(i16::MIN), -32768);
    assert_eq!(parse_u64("0"), Some(0));
    assert_eq!(parse_u64("007"), Some(7));
    assert_eq!(parse_u64("18446744073709551615"), Some(u64::MAX));
    assert_eq!(parse_u64("18446744073709551616"), None);
    assert_eq!(parse_u64("99999999999999999999999"), None);
    assert_eq!(parse_u64(""), None);
    assert_eq!(parse_u64("+1"), None);
    assert_eq!(parse_u64("1a"), None);
    assert!(is_all_digits("123"));
    assert!(is_all_digits(""));
    assert!(!is_all_digits("12 "));
    assert!(!is_all_digits("١٢"));
}

fn settings(global: &str, webhook: &str) -> Config {
    Config {
        prefix: "!".to_string(),
        msg_cache: 10,
        logging: LoggingConfig {
            webhook_url: "https://example.invalid/hook".to_string(),
            global_level: global.to_string(),
            webhook_level: webhook.to_string(),
        },
        emoji: EmojiConfig {
            emoji: "x".to_string(),
            phrase: "flop".to_string(),
        },
    }
}

#[test]
fn levels_from_settings() {
    assert_eq!(level_from_str("error"), Level::Error);
    assert_eq!(level_from_str("WARN"), Level::Warn);
    assert_eq!(level_from_str("Info"), Level::Info);
    assert_eq!(level_from_str("debug"), Level::Debug);
    assert_eq!(level_from_str("trace"), Level::Trace);
    assert_eq!(level_from_str("1"), Level::Error);
    assert_eq!(level_from_str("5"), Level::Trace);
    assert_eq!(level_from_str("6"), Level::Info);
    assert_eq!(level_from_str("loud"), Level::Info);
    assert_eq!(level_from_str(""), Level::Info);
    assert!(more_severe(Level::Error, Level::Warn));
    assert!(!more_severe(Level::Trace, Level::Debug));
    assert!(!more_severe(Level::Info, Level::Info));
    assert_eq!(name_of(Level::Warn), "WARN");
}

#[test]
fn colours_of_levels() {
    assert_eq!(colour_from_level(Level::Error), 0xe06c75);
    assert_eq!(colour_from_level(Level::Warn), 0xe5c07b);
    assert_eq!(colour_from_level(Level::Info), 0x98c379);
    assert_eq!(colour_from_level(Level::Debug), 0x61afef);
    assert_eq!(colour_from_level(Level::Trace), 0x979eab);
}

#[test]
fn logger_lets_through_by_origin_and_level() {
    let log = FlopLog::new(&settings("debug", "warn"));
    assert_eq!(log.webhook(), "https://example.invalid/hook");
    assert!(log.enabled(Level::Debug, Some("floppa::db"), "floppa::db"));
    assert!(!log.enabled(Level::Trace, Some("floppa::db"), "floppa::db"));
    assert!(log.enabled(Level::Info, Some("serenity::http"), "serenity::http"));
    assert!(!log.enabled(Level::Debug, Some("serenity::http"), "serenity::http"));
    assert!(log.enabled(Level::Info, Some("floppa"), "other"));
    assert!(!log.enabled(Level::Debug, Some("floppa"), "other"));
    assert!(log.enabled(Level::Debug, None, "floppa"));
    let strict = FlopLog::new(&settings("warn", "nonsense"));
    assert!(strict.enabled(Level::Warn, None, "floppa"));
    assert!(!strict.enabled(Level::Warn, None, "tokio"));
    assert!(strict.enabled(Level::Error, None, "tokio"));
    assert!(log.forwards(Level::Error));
    assert!(log.forwards(Level::Warn));
    assert!(!log.forwards(Level::Info));
    assert!(strict.forwards(Level::Info));
    assert!(!strict.forwards(Level::Debug));
}

#[test]
fn log_entries_as_text() {
    assert_eq!(FlopLog::title(Level::Error, Some("floppa::db")), "ERROR in `floppa::db`");
    assert_eq!(FlopLog::title(Level::Info, None), "INFO");
    let fields = vec![
        ("user".to_string(), "5".to_string()),
        ("message".to_string(), "went wrong".to_string()),
        ("code".to_string(), "7".to_string()),
    ];
    assert_eq!(
        FlopLog::description(&fields),
        "went wrong\n- `user`: `5`\n- `code`: `7`\n"
    );
    assert_eq!(FlopLog::description(&Vec::new()), "No message\n");
}

#[test]
fn fixed_answers() {
    let cmd = TextCmd::new(vec!["a".to_string(), "b".to_string(), "c".to_string()]);
    assert_eq!(cmd.reply(0), "a");
    assert_eq!(cmd.reply(4), "b");
    assert_eq!(cmd.reply(usize::MAX), ["a", "b", "c"][usize::MAX % 3]);
    assert_eq!(TextCmd::new(Vec::new()).reply(3), "⚠️ This command has no responses");
    assert_eq!(SleepCmd.reply(), "Epic sleep");
    assert_eq!(SleepCmd.delay(), 1);
}

#[test]
fn default_emoji() {
    let e = ConfigEmoji::default();
    assert_eq!(e.count, 0);
    assert_eq!(e.id, 853358698964713523);
    assert!(!e.animated);
    assert_eq!(e.name, "flop");
    assert_eq!(e.phrase, "flop");
}
