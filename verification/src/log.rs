//! Which log entries are printed, which are sent on, and how they are written.

use vstd::prelude::*;
use vstd::string::*;
use crate::config::Config;
use crate::text::{join3, join5, starts_with, str_eq};

verus! {

/// How severe a log entry is.
#[derive(Debug, PartialEq, Eq, Clone, Copy, Structural)]
pub enum Level {
    Error,
    Warn,
    Info,
    Debug,
    Trace,
}

/// The place of a level in the order from the most severe to the least.
pub open spec fn severity(level: Level) -> nat {
    match level {
        Level::Error => 1,
        Level::Warn => 2,
        Level::Info => 3,
        Level::Debug => 4,
        Level::Trace => 5,
    }
}

/// The level that a text names, as the `from_str` of the crate tracing reads
/// it; `None` where it names none.
pub uninterp spec fn parsed_level(text: Seq<char>) -> Option<Level>;

/// Calls the `from_str` of `tracing::Level` and tells its five levels apart.
#[verifier::external_body]
pub(crate) fn parse_level(text: &str) -> (r: Option<Level>)
    ensures
        r == parsed_level(text@),
{
    match <tracing::Level as std::str::FromStr>::from_str(text) {
        Ok(tracing::Level::ERROR) => Some(Level::Error),
        Ok(tracing::Level::WARN) => Some(Level::Warn),
        Ok(tracing::Level::INFO) => Some(Level::Info),
        Ok(tracing::Level::DEBUG) => Some(Level::Debug),
        Ok(tracing::Level::TRACE) => Some(Level::Trace),
        Err(_) => None,
    }
}

/// The level that a setting names; `Info` where it names none.
pub open spec fn level_of(text: Seq<char>) -> Level {
    match parsed_level(text) {
        Some(level) => level,
        None => Level::Info,
    }
}

/// Whether an entry of level `level` is let through. `own` tells whether the
/// entry comes from this program; an entry from elsewhere must be more severe
/// than `Debug` and than `least`, one of this program at least as severe as
/// `least`.
pub open spec fn lets_through(least: Level, level: Level, own: bool) -> bool {
    if own {
        severity(level) <= severity(least)
    } else {
        severity(level) < severity(Level::Debug) && severity(level) < severity(least)
    }
}

/// The name of the module tree of this program.
pub const OWN_MODULE: &'static str = "floppa";

/// Whether an entry comes from this program: its target is in the module tree
/// of the program, and its module path too where it has one.
pub open spec fn is_own(module: Option<Seq<char>>, target: Seq<char>) -> bool {
    &&& module is Some ==> OWN_MODULE@.is_prefix_of(module->Some_0)
    &&& OWN_MODULE@.is_prefix_of(target)
}

/// The name of a level in capitals.
pub open spec fn level_name(level: Level) -> Seq<char> {
    match level {
        Level::Error => "ERROR"@,
        Level::Warn => "WARN"@,
        Level::Info => "INFO"@,
        Level::Debug => "DEBUG"@,
        Level::Trace => "TRACE"@,
    }
}

/// The colour in which an entry of a level is shown.
pub open spec fn level_colour(level: Level) -> u32 {
    match level {
        Level::Error => 0xe06c75,
        Level::Warn => 0xe5c07b,
        Level::Info => 0x98c379,
        Level::Debug => 0x61afef,
        Level::Trace => 0x979eab,
    }
}

/// The title of an entry: its level, and its module where it has one.
pub open spec fn title_text(level: Level, module: Option<Seq<char>>) -> Seq<char> {
    match module {
        Some(path) => level_name(level) + " in `"@ + path + "`"@,
        None => level_name(level),
    }
}

/// The message of an entry: the value of the last field named `message`, or a
/// note that there is none.
pub open spec fn message_of(fields: Seq<(Seq<char>, Seq<char>)>) -> Seq<char>
    decreases fields.len(),
{
    if fields.len() == 0 {
        "No message"@
    } else if fields.last().0 == "message"@ {
        fields.last().1
    } else {
        message_of(fields.drop_last())
    }
}

/// The other fields of an entry, one line each.
pub open spec fn field_lines(fields: Seq<(Seq<char>, Seq<char>)>) -> Seq<char>
    decreases fields.len(),
{
    if fields.len() == 0 {
        Seq::empty()
    } else if fields.last().0 == "message"@ {
        field_lines(fields.drop_last())
    } else {
        field_lines(fields.drop_last()) + "- `"@ + fields.last().0 + "`: `"@ + fields.last().1
            + "`\n"@
    }
}

/// The views of a list of fields.
pub open spec fn field_views(fields: Seq<(String, String)>) -> Seq<(Seq<char>, Seq<char>)> {
    Seq::new(fields.len(), |i: int| (fields[i].0@, fields[i].1@))
}

/// Decides what is logged where.
#[derive(Debug)]
pub struct FlopLog {
    min_level: Level,
    webhook_level: Level,
    webhook: String,
}

/// The level that a setting names; `Info` where it names none.
pub fn level_from_str(level: &str) -> (r: Level)
    ensures
        r == level_of(level@),
{
    match parse_level(level) {
        Some(l) => l,
        None => Level::Info,
    }
}

/// Whether `a` is more severe than `b`.
pub fn more_severe(a: Level, b: Level) -> (r: bool)
    ensures
        r == (severity(a) < severity(b)),
{
    rank(a) < rank(b)
}

fn rank(level: Level) -> (r: u8)
    ensures
        r == severity(level),
{
    match level {
        Level::Error => 1,
        Level::Warn => 2,
        Level::Info => 3,
        Level::Debug => 4,
        Level::Trace => 5,
    }
}

/// The colour in which an entry of a level is shown.
pub fn colour_from_level(level: Level) -> (r: u32)
    ensures
        r == level_colour(level),
{
    match level {
        Level::Error => 0xe06c75,
        Level::Warn => 0xe5c07b,
        Level::Info => 0x98c379,
        Level::Debug => 0x61afef,
        Level::Trace => 0x979eab,
    }
}

/// The name of a level in capitals.
pub fn name_of(level: Level) -> (r: &'static str)
    ensures
        r@ == level_name(level),
{
    match level {
        Level::Error => "ERROR",
        Level::Warn => "WARN",
        Level::Info => "INFO",
        Level::Debug => "DEBUG",
        Level::Trace => "TRACE",
    }
}

impl FlopLog {
    /// The least severe level that is printed.
    pub closed spec fn least(&self) -> Level {
        self.min_level
    }

    /// The least severe level that is sent to the webhook.
    pub closed spec fn least_sent(&self) -> Level {
        self.webhook_level
    }

    /// The address of the webhook.
    pub closed spec fn address(&self) -> Seq<char> {
        self.webhook@
    }

    /// The logger that the settings ask for.
    pub fn new(cfg: &Config) -> (r: FlopLog)
        ensures
            r.least() == level_of(cfg.logging.global_level@),
            r.least_sent() == level_of(cfg.logging.webhook_level@),
            r.address() == cfg.logging.webhook_url@,
    {
        FlopLog {
            min_level: level_from_str(cfg.logging.global_level.as_str()),
            webhook: cfg.logging.webhook_url.clone(),
            webhook_level: level_from_str(cfg.logging.webhook_level.as_str()),
        }
    }

    /// The address of the webhook.
    pub fn webhook(&self) -> (r: &str)
        ensures
            r@ == self.address(),
    {
        self.webhook.as_str()
    }

    /// Whether an entry is printed.
    pub fn enabled(&self, level: Level, module: Option<&str>, target: &str) -> (r: bool)
        ensures
            r == lets_through(
                self.least(),
                level,
                is_own(
                    match module {
                        Some(p) => Some(p@),
                        None => None,
                    },
                    target@,
                ),
            ),
    {
        let foreign_module = match module {
            Some(p) => !starts_with(p, OWN_MODULE),
            None => false,
        };
        if foreign_module || !starts_with(target, OWN_MODULE) {
            rank(level) < rank(Level::Debug) && rank(level) < rank(self.min_level)
        } else {
            rank(level) <= rank(self.min_level)
        }
    }

    /// Whether an entry is sent to the webhook: it is at least as severe as the
    /// level set for the webhook.
    pub fn forwards(&self, level: Level) -> (r: bool)
        ensures
            r == (severity(level) <= severity(self.least_sent())),
    {
        rank(level) <= rank(self.webhook_level)
    }

    /// The title under which an entry is sent.
    pub fn title(level: Level, module: Option<&str>) -> (r: String)
        ensures
            r@ == title_text(
                level,
                match module {
                    Some(p) => Some(p@),
                    None => None,
                },
            ),
    {
        match module {
            Some(path) => {
                let mut text = join3(name_of(level), " in `", path);
                text.append("`");
                text
            },
            None => name_of(level).to_owned(),
        }
    }

    /// The text under which an entry is sent: its message, then its other
    /// fields.
    pub fn description(fields: &Vec<(String, String)>) -> (r: String)
        ensures
            r@ == message_of(field_views(fields@)) + "\n"@ + field_lines(field_views(fields@)),
    {
        let mut message = "No message".to_owned();
        let mut lines = String::new();
        let mut i: usize = 0;
        while i < fields.len()
            invariant
                i <= fields@.len(),
                message@ == message_of(field_views(fields@).take(i as int)),
                lines@ == field_lines(field_views(fields@).take(i as int)),
            decreases fields@.len() - i,
        {
            proof {
                assert(field_views(fields@).take(i + 1).drop_last() =~= field_views(fields@).take(
                    i as int,
                ));
            }
            if str_eq(fields[i].0.as_str(), "message") {
                message = fields[i].1.clone();
            } else {
                let ghost before = lines@;
                lines.append(
                    join5("- `", fields[i].0.as_str(), "`: `", fields[i].1.as_str(), "`\n").as_str(),
                );
                assert(lines@ =~= before + "- `"@ + fields@[i as int].0@ + "`: `"@
                    + fields@[i as int].1@ + "`\n"@);
            }
            i += 1;
        }
        assert(field_views(fields@).take(i as int) =~= field_views(fields@));
        join3(message.as_str(), "\n", lines.as_str())
    }
}

} // verus!
