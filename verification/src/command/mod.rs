//! The kinds of command and the table that builds one from its type tag.

use vstd::prelude::*;
use vstd::string::*;
use vstd::utf8::*;
use crate::codec::lossy_text;
use crate::command::msg::message_saved;
use crate::clock::unix_now;
use crate::command::add::{add_outcome, encoded_view, transcoded};
use crate::command::edit::edit_outcome;
use crate::command::info::info_outcome;
use crate::command::link::link_outcome;
use crate::command::remove::remove_outcome;
use crate::command::role::role_outcome;
use crate::command::stoik::{stoik_plan, PlanView, StoikPlan, HELP_MSG, NO_PRODUCTS};
use crate::command::wiki::{search_words, ENDPOINT, NO_ARGUMENT};
use crate::config::{Cli, CliView};
use crate::db::FlopDB;
use crate::message::{FlopMessagable, Message, ReplyView};
use crate::model::DbView;
use crate::text::{char_is_alphanumeric, chars_of, is_alphanumeric, str_eq};

pub mod add;
pub mod broken;
pub mod edit;
pub mod flop_count;
pub mod info;
pub mod link;
pub mod markers;
pub mod msg;
pub mod remove;
pub mod role;
pub mod stoik;
pub mod version;
pub mod wiki;

pub use add::AddCommand;
pub use broken::{BrokenCommand, ERROR_MSG};
pub use edit::EditCommand;
pub use flop_count::FlopCountCommand;
pub use info::InfoCommand;
pub use link::LinkCommand;
pub use markers::SubregistyMarkerCommand;
pub use msg::MessageCommand;
pub use remove::RemoveCommand;
pub use role::RoleCommand;
pub use stoik::StoikCommand;
pub use version::VersionCommand;
pub use wiki::WikiCommand;

verus! {

/// The type tags of the known kinds of command.
pub const VALID: [&'static str; 11] = [
    "MessageCommand",
    "AddCommand",
    "InfoCommand",
    "EditCommand",
    "RemoveCommand",
    "LinkCommand",
    "RoleCommand",
    "VersionCommand",
    "FlopCountCommand",
    "WikiCommand",
    "StoikCommand",
];

/// Why a stored node could not be built.
#[derive(Debug, PartialEq, Eq, Clone, Copy, Structural)]
pub enum ConstructError {
    /// The stored bytes are not UTF-8 text.
    InvalidText,
    /// The stored bytes do not hold a link target.
    InvalidLink,
}

/// A command of one of the known kinds.
#[derive(Debug)]
pub enum CommandObject {
    Message(MessageCommand),
    Add(AddCommand),
    Info(InfoCommand),
    Edit(EditCommand),
    Remove(RemoveCommand),
    Link(LinkCommand),
    Role(RoleCommand),
    Version(VersionCommand),
    FlopCount(FlopCountCommand),
    Wiki(WikiCommand),
    Stoik(StoikCommand),
    /// In place of a command whose type tag names no known kind.
    Broken(BrokenCommand),
}

/// A command as a mathematical value: its kind, and for a plain-text command
/// its reply.
pub enum CommandView {
    Message(ReplyView),
    Add(CliView),
    Info,
    Edit(CliView),
    Remove,
    Link,
    Role,
    Version,
    FlopCount,
    Wiki,
    Stoik,
    Broken,
}

impl View for CommandObject {
    type V = CommandView;

    open spec fn view(&self) -> CommandView {
        match self {
            CommandObject::Message(m) => CommandView::Message(m@),
            CommandObject::Add(c) => CommandView::Add(c@),
            CommandObject::Info(_) => CommandView::Info,
            CommandObject::Edit(c) => CommandView::Edit(c@),
            CommandObject::Remove(_) => CommandView::Remove,
            CommandObject::Link(_) => CommandView::Link,
            CommandObject::Role(_) => CommandView::Role,
            CommandObject::Version(_) => CommandView::Version,
            CommandObject::FlopCount(_) => CommandView::FlopCount,
            CommandObject::Wiki(_) => CommandView::Wiki,
            CommandObject::Stoik(_) => CommandView::Stoik,
            CommandObject::Broken(_) => CommandView::Broken,
        }
    }
}

/// Whether `ty` is the type tag of a known kind of command.
pub open spec fn valid_tag(ty: Seq<char>) -> bool {
    ||| ty == "MessageCommand"@
    ||| ty == "AddCommand"@
    ||| ty == "InfoCommand"@
    ||| ty == "EditCommand"@
    ||| ty == "RemoveCommand"@
    ||| ty == "LinkCommand"@
    ||| ty == "RoleCommand"@
    ||| ty == "VersionCommand"@
    ||| ty == "FlopCountCommand"@
    ||| ty == "WikiCommand"@
    ||| ty == "StoikCommand"@
}

/// The command that the type tag `ty`, the stored bytes `data` and the
/// settings `cli` give. A tag that names no kind gives the broken command.
pub open spec fn constructed(ty: Seq<char>, data: Seq<u8>, cli: CliView) -> CommandView {
    if ty == "MessageCommand"@ {
        CommandView::Message(ReplyView::Text(lossy_text(data)))
    } else if ty == "AddCommand"@ {
        CommandView::Add(cli)
    } else if ty == "InfoCommand"@ {
        CommandView::Info
    } else if ty == "EditCommand"@ {
        CommandView::Edit(cli)
    } else if ty == "RemoveCommand"@ {
        CommandView::Remove
    } else if ty == "LinkCommand"@ {
        CommandView::Link
    } else if ty == "RoleCommand"@ {
        CommandView::Role
    } else if ty == "VersionCommand"@ {
        CommandView::Version
    } else if ty == "FlopCountCommand"@ {
        CommandView::FlopCount
    } else if ty == "WikiCommand"@ {
        CommandView::Wiki
    } else if ty == "StoikCommand"@ {
        CommandView::Stoik
    } else {
        CommandView::Broken
    }
}

/// The bytes to store for a command; `None` where the stored bytes are to be
/// left as they are.
pub open spec fn command_saved(c: CommandView) -> Option<Seq<u8>> {
    match c {
        CommandView::Message(m) => Some(message_saved(m)),
        _ => None,
    }
}

/// Whether a text can be the name of a command: each of its characters is a
/// letter, a number, `_` or `-`.
pub open spec fn name_allowed(name: Seq<char>) -> bool {
    forall|i: int|
        0 <= i < name.len() ==> char_is_alphanumeric(#[trigger] name[i]) || name[i] == '_'
            || name[i] == '-'
}

/// Whether a text can be the name of a command.
pub fn check_name(name: &str) -> (r: bool)
    ensures
        r == name_allowed(name@),
{
    let cs = chars_of(name);
    let mut i: usize = 0;
    while i < cs.len()
        invariant
            cs@ == name@,
            i <= cs@.len(),
            forall|k: int|
                0 <= k < i ==> char_is_alphanumeric(#[trigger] cs@[k]) || cs@[k] == '_' || cs@[k]
                    == '-',
        decreases cs@.len() - i,
    {
        let c = cs[i];
        if !(is_alphanumeric(c) || c == '_' || c == '-') {
            return false;
        }
        i += 1;
    }
    true
}

/// What a command is told about the call that runs it.
#[derive(Debug)]
pub struct CmdCtx<'a> {
    /// The text by which the command was called: the prefix and the words that
    /// led to it.
    pub command: &'a str,
    /// The registry in which the command was found.
    pub registry: &'a str,
    /// The name under which the command was found.
    pub name: &'a str,
    /// The owner of the command.
    pub owner: u64,
    /// When the command was added, in seconds since the epoch.
    pub added: i64,
}

/// The context of a call as a mathematical value.
pub struct CtxView {
    pub command: Seq<char>,
    pub registry: Seq<char>,
    pub name: Seq<char>,
    pub owner: u64,
    pub added: i64,
}

impl<'a> View for CmdCtx<'a> {
    type V = CtxView;

    open spec fn view(&self) -> CtxView {
        CtxView {
            command: self.command@,
            registry: self.registry@,
            name: self.name@,
            owner: self.owner,
            added: self.added,
        }
    }
}

/// Whether `ty` is the type tag of a known kind of command.
pub fn is_valid(ty: &str) -> (r: bool)
    ensures
        r == valid_tag(ty@),
{
    str_eq(ty, "MessageCommand") || str_eq(ty, "AddCommand") || str_eq(ty, "InfoCommand")
        || str_eq(ty, "EditCommand") || str_eq(ty, "RemoveCommand") || str_eq(ty, "LinkCommand")
        || str_eq(ty, "RoleCommand") || str_eq(ty, "VersionCommand") || str_eq(
        ty,
        "FlopCountCommand",
    ) || str_eq(ty, "WikiCommand") || str_eq(ty, "StoikCommand")
}

/// Builds a command from its type tag, its stored bytes and the settings.
pub fn construct(ty: &str, data: &[u8], cli: &Cli) -> (r: Result<CommandObject, ConstructError>)
    ensures
        r is Ok,
        r->Ok_0@ == constructed(ty@, data@, cli@),
{
    if str_eq(ty, "MessageCommand") {
        match MessageCommand::construct(cli, data) {
            Ok(c) => Ok(CommandObject::Message(c)),
            Err(e) => Err(e),
        }
    } else if str_eq(ty, "AddCommand") {
        match AddCommand::construct(cli, data) {
            Ok(c) => Ok(CommandObject::Add(c)),
            Err(e) => Err(e),
        }
    } else if str_eq(ty, "InfoCommand") {
        Ok(CommandObject::Info(InfoCommand))
    } else if str_eq(ty, "EditCommand") {
        match EditCommand::construct(cli, data) {
            Ok(c) => Ok(CommandObject::Edit(c)),
            Err(e) => Err(e),
        }
    } else if str_eq(ty, "RemoveCommand") {
        Ok(CommandObject::Remove(RemoveCommand))
    } else if str_eq(ty, "LinkCommand") {
        Ok(CommandObject::Link(LinkCommand))
    } else if str_eq(ty, "RoleCommand") {
        Ok(CommandObject::Role(RoleCommand))
    } else if str_eq(ty, "VersionCommand") {
        Ok(CommandObject::Version(VersionCommand))
    } else if str_eq(ty, "FlopCountCommand") {
        Ok(CommandObject::FlopCount(FlopCountCommand))
    } else if str_eq(ty, "WikiCommand") {
        Ok(CommandObject::Wiki(WikiCommand))
    } else if str_eq(ty, "StoikCommand") {
        Ok(CommandObject::Stoik(StoikCommand))
    } else {
        Ok(CommandObject::Broken(BrokenCommand))
    }
}

impl Clone for CommandObject {
    fn clone(&self) -> (r: CommandObject)
        ensures
            r@ == self@,
    {
        match self {
            CommandObject::Message(m) => CommandObject::Message(m.clone()),
            CommandObject::Add(c) => CommandObject::Add(c.clone()),
            CommandObject::Info(_) => CommandObject::Info(InfoCommand),
            CommandObject::Edit(c) => CommandObject::Edit(c.clone()),
            CommandObject::Remove(_) => CommandObject::Remove(RemoveCommand),
            CommandObject::Link(_) => CommandObject::Link(LinkCommand),
            CommandObject::Role(_) => CommandObject::Role(RoleCommand),
            CommandObject::Version(_) => CommandObject::Version(VersionCommand),
            CommandObject::FlopCount(_) => CommandObject::FlopCount(FlopCountCommand),
            CommandObject::Wiki(_) => CommandObject::Wiki(WikiCommand),
            CommandObject::Stoik(_) => CommandObject::Stoik(StoikCommand),
            CommandObject::Broken(_) => CommandObject::Broken(BrokenCommand),
        }
    }
}

impl CommandObject {
    /// The bytes to store for the command; `None` where the stored bytes are
    /// to be left as they are.
    pub fn save(&self) -> (r: Option<Vec<u8>>)
        ensures
            match r {
                Some(bytes) => command_saved(self@) == Some(bytes@),
                None => command_saved(self@) is None,
            },
    {
        match self {
            CommandObject::Message(m) => m.save(),
            CommandObject::Add(c) => c.save(),
            CommandObject::Info(c) => c.save(),
            CommandObject::Edit(c) => c.save(),
            CommandObject::Remove(c) => c.save(),
            CommandObject::Link(c) => c.save(),
            CommandObject::Role(c) => c.save(),
            CommandObject::Version(c) => c.save(),
            CommandObject::FlopCount(c) => c.save(),
            CommandObject::Wiki(c) => c.save(),
            CommandObject::Stoik(c) => c.save(),
            CommandObject::Broken(c) => c.save(),
        }
    }
}

/// What running a command comes to.
#[derive(Debug)]
pub enum Execution {
    /// The command has answered.
    Reply(FlopMessagable),
    /// The answer is made from the search at this address.
    Wiki { url: String },
    /// The answer is made from the name and the version of the running program.
    Version,
    /// The answer is made from the count of reactions.
    FlopCount,
    /// The answer is made by balancing the formulas of the two sides of an
    /// equation.
    Stoik { reactants: Vec<String>, products: Vec<String> },
}

/// What running a command comes to, as a mathematical value.
pub enum ExecutionView {
    Reply(ReplyView),
    Wiki { url: Seq<char> },
    Version,
    FlopCount,
    Stoik { reactants: Seq<Seq<char>>, products: Seq<Seq<char>> },
}

impl View for Execution {
    type V = ExecutionView;

    open spec fn view(&self) -> ExecutionView {
        match self {
            Execution::Reply(m) => ExecutionView::Reply(m@),
            Execution::Wiki { url } => ExecutionView::Wiki { url: url@ },
            Execution::Version => ExecutionView::Version,
            Execution::FlopCount => ExecutionView::FlopCount,
            Execution::Stoik { reactants, products } => ExecutionView::Stoik {
                reactants: crate::text::views(reactants@),
                products: crate::text::views(products@),
            },
        }
    }
}

/// What running the command `cmd` does to the registry and what it comes to.
/// `now` is the time of the call and `encoded` what turning its JSON data into
/// MessagePack gave; the two matter to the commands that add entries.
pub open spec fn executed(
    cmd: CommandView,
    db: DbView,
    content: Seq<char>,
    author: u64,
    ctx: CtxView,
    now: i64,
    encoded: Result<Seq<u8>, Seq<char>>,
) -> (DbView, ExecutionView) {
    match cmd {
        CommandView::Message(m) => (db, ExecutionView::Reply(m)),
        CommandView::Add(cli) => (
            add_outcome(db, content, author, ctx, now, encoded, cli).0,
            ExecutionView::Reply(
                ReplyView::Text(add_outcome(db, content, author, ctx, now, encoded, cli).1),
            ),
        ),
        CommandView::Info => (
            db,
            ExecutionView::Reply(ReplyView::Text(info_outcome(db, content, ctx))),
        ),
        CommandView::Edit(_) => (
            edit_outcome(db, content, author, ctx).0,
            ExecutionView::Reply(ReplyView::Text(edit_outcome(db, content, author, ctx).1)),
        ),
        CommandView::Remove => (
            remove_outcome(db, content, author, ctx).0,
            ExecutionView::Reply(ReplyView::Text(remove_outcome(db, content, author, ctx).1)),
        ),
        CommandView::Link => (
            link_outcome(db, content, author, ctx, now).0,
            ExecutionView::Reply(ReplyView::Text(link_outcome(db, content, author, ctx, now).1)),
        ),
        CommandView::Role => (
            role_outcome(db, content, author, ctx).0,
            ExecutionView::Reply(ReplyView::Text(role_outcome(db, content, author, ctx).1)),
        ),
        CommandView::Version => (db, ExecutionView::Version),
        CommandView::FlopCount => (db, ExecutionView::FlopCount),
        CommandView::Wiki => (
            db,
            if search_words(content, ctx).len() > 0 {
                ExecutionView::Wiki { url: ENDPOINT@ + search_words(content, ctx) }
            } else {
                ExecutionView::Reply(ReplyView::Text(NO_ARGUMENT@))
            },
        ),
        CommandView::Stoik => (
            db,
            match stoik_plan(content, ctx) {
                PlanView::Help => ExecutionView::Reply(ReplyView::Text(HELP_MSG@)),
                PlanView::NoProducts => ExecutionView::Reply(ReplyView::Text(NO_PRODUCTS@)),
                PlanView::Balance { reactants, products } => ExecutionView::Stoik {
                    reactants,
                    products,
                },
            },
        ),
        CommandView::Broken => (db, ExecutionView::Reply(ReplyView::Text(ERROR_MSG@))),
    }
}

impl CommandObject {
    /// Runs the command at the moment of the call.
    pub fn execute(&mut self, msg: &Message, ctx: &CmdCtx, db: &mut FlopDB) -> (r: Execution)
        requires
            old(db).wf(),
        ensures
            final(db).wf(),
            final(self)@ == old(self)@,
            exists|now: i64|
                (final(db)@, r@) == #[trigger] executed(
                    old(self)@,
                    old(db)@,
                    msg.content@,
                    msg.author,
                    ctx@,
                    now,
                    transcoded(msg.content@, ctx@),
                ),
    {
        let now = unix_now();
        let encoded = match self {
            CommandObject::Add(_) => AddCommand::transcode(msg, ctx),
            _ => Ok(Vec::new()),
        };
        let r = self.execute_with(msg, ctx, db, now, encoded);
        assert((db@, r@) == executed(
            old(self)@,
            old(db)@,
            msg.content@,
            msg.author,
            ctx@,
            now,
            transcoded(msg.content@, ctx@),
        ));
        r
    }

    /// Runs the command at the time `now`, in seconds since the epoch, with
    /// `encoded` as what turning the JSON data of the call into MessagePack
    /// gave.
    pub fn execute_with(
        &mut self,
        msg: &Message,
        ctx: &CmdCtx,
        db: &mut FlopDB,
        now: i64,
        encoded: Result<Vec<u8>, String>,
    ) -> (r: Execution)
        requires
            old(db).wf(),
        ensures
            final(db).wf(),
            final(self)@ == old(self)@,
            (final(db)@, r@) == executed(
                old(self)@,
                old(db)@,
                msg.content@,
                msg.author,
                ctx@,
                now,
                encoded_view(encoded),
            ),
    {
        match self {
            CommandObject::Message(m) => Execution::Reply(m.execute()),
            CommandObject::Add(c) => Execution::Reply(c.execute_with(msg, ctx, db, now, encoded)),
            CommandObject::Info(c) => Execution::Reply(c.execute(msg, ctx, db)),
            CommandObject::Edit(c) => Execution::Reply(c.execute(msg, ctx, db)),
            CommandObject::Remove(c) => Execution::Reply(c.execute(msg, ctx, db)),
            CommandObject::Link(c) => Execution::Reply(c.execute_at(msg, ctx, db, now)),
            CommandObject::Role(c) => Execution::Reply(c.execute(msg, ctx, db)),
            CommandObject::Version(_) => Execution::Version,
            CommandObject::FlopCount(_) => Execution::FlopCount,
            CommandObject::Wiki(_) => match WikiCommand::request(msg, ctx) {
                Ok(url) => Execution::Wiki { url },
                Err(reply) => Execution::Reply(reply),
            },
            CommandObject::Stoik(_) => match StoikCommand::plan(msg, ctx) {
                StoikPlan::Help => Execution::Reply(FlopMessagable::Text(HELP_MSG.to_owned())),
                StoikPlan::NoProducts => Execution::Reply(
                    FlopMessagable::Text(NO_PRODUCTS.to_owned()),
                ),
                StoikPlan::Balance { reactants, products } => Execution::Stoik {
                    reactants,
                    products,
                },
            },
            CommandObject::Broken(c) => Execution::Reply(c.execute()),
        }
    }
}

} // verus!
