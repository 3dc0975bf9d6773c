//! Removes a command.

use vstd::prelude::*;
use crate::config::Cli;
use vstd::string::*;
use crate::command::{CmdCtx, ConstructError, CtxView};
use crate::db::FlopDB;
use crate::message::{FlopMessagable, Message, ReplyView};
use crate::model::DbView;
use crate::stuff::{mention, mention_text};
use crate::text::{
    join3, lowercase, split_once, split_once_at, split_whitespace, str_eq, strip_repeated,
    to_lowercase, trim_start_matches, views, words,
};

verus! {

/// Removes a command.
#[derive(Debug, Clone, Copy, PartialEq, Eq, Structural)]
pub struct RemoveCommand;

/// The command that an argument names: a registry and a name around the first
/// colon, or a name in the registry of the call.
pub open spec fn named_command(arg: Seq<char>, registry: Seq<char>) -> (Seq<char>, Seq<char>) {
    match split_once_at(arg, ':') {
        Some(pair) => pair,
        None => (registry, arg),
    }
}

/// The answer for a command that is not there; it names the registry where
/// that is not the registry of the call.
pub open spec fn not_found_text(registry: Seq<char>, name: Seq<char>, here: Seq<char>) -> Seq<
    char,
> {
    "⚠️ Failed to find command `"@ + name + "`"@ + if registry != here {
        " in registry `"@ + registry + "`"@
    } else {
        Seq::empty()
    }
}

/// What a call of the remove command does to the registry and what it answers.
/// Only its owner may remove a command, and the remove command cannot remove
/// itself. The command is found with its name in lower case and removed under
/// the name as it is written.
pub open spec fn remove_outcome(db: DbView, content: Seq<char>, author: u64, ctx: CtxView) -> (
    DbView,
    Seq<char>,
) {
    let args = words(strip_repeated(content, ctx.command));
    if args.len() < 1 {
        (db, "Usage "@ + ctx.command + " [registry:](command)"@)
    } else {
        let (registry, name) = named_command(args[0], ctx.registry);
        if ctx.registry == registry && ctx.name == lowercase(name) {
            (db, "Insufficent perms to remove this command"@)
        } else if db.lookup(registry, name) is None {
            (db, not_found_text(registry, name, ctx.registry))
        } else if db.lookup(registry, name)->Some_0.owner != author {
            (
                db,
                "⚠️ Cannot remove command, `"@ + name + "` is owned by "@ + mention_text(
                    db.lookup(registry, name)->Some_0.owner,
                ),
            )
        } else if db.commands.contains_key((registry, name)) {
            (db.remove(registry, name), "Deleted command `"@ + name + "`"@)
        } else {
            (db, "Failed to delete command `"@ + name + "`"@)
        }
    }
}

/// Writes the answer for a command that is not there.
pub fn not_found(registry: &str, name: &str, here: &str) -> (r: String)
    ensures
        r@ == not_found_text(registry@, name@, here@),
{
    let mut out = join3("⚠️ Failed to find command `", name, "`");
    if !str_eq(registry, here) {
        out.append(join3(" in registry `", registry, "`").as_str());
        assert(out@ =~= not_found_text(registry@, name@, here@));
    } else {
        assert(out@ =~= not_found_text(registry@, name@, here@));
    }
    out
}

impl RemoveCommand {
    /// Builds the command; it keeps neither the settings nor stored data.
    pub fn construct(_cli: &Cli, _data: &[u8]) -> (r: Result<RemoveCommand, ConstructError>)
        ensures
            r == Ok::<RemoveCommand, ConstructError>(RemoveCommand),
    {
        Ok(RemoveCommand)
    }

    /// Nothing is stored for this command.
    pub fn save(&self) -> (r: Option<Vec<u8>>)
        ensures
            r is None,
    {
        None
    }

    /// Runs the command.
    pub fn execute(&mut self, msg: &Message, ctx: &CmdCtx, db: &mut FlopDB) -> (r: FlopMessagable)
        requires
            old(db).wf(),
        ensures
            final(db).wf(),
            final(db)@ == remove_outcome(old(db)@, msg.content@, msg.author, ctx@).0,
            r@ == ReplyView::Text(remove_outcome(old(db)@, msg.content@, msg.author, ctx@).1),
    {
        let rest = trim_start_matches(msg.content.as_str(), ctx.command);
        let args = split_whitespace(rest.as_str());
        if args.len() < 1 {
            return FlopMessagable::Text(join3("Usage ", ctx.command, " [registry:](command)"));
        }
        assert(views(args@)[0] == args@[0]@);
        let (registry, name) = match split_once(args[0].as_str(), ':') {
            Some(pair) => pair,
            None => (ctx.registry.to_owned(), args[0].clone()),
        };
        if str_eq(ctx.registry, registry.as_str()) && str_eq(
            ctx.name,
            to_lowercase(name.as_str()).as_str(),
        ) {
            return FlopMessagable::Text("Insufficent perms to remove this command".to_owned());
        }
        let owner = match db.get_command(registry.clone(), name.clone()) {
            Some(cmd) => cmd.get_owner(),
            None => {
                return FlopMessagable::Text(
                    not_found(registry.as_str(), name.as_str(), ctx.registry),
                );
            },
        };
        if owner != msg.author {
            let mut text = join3("⚠️ Cannot remove command, `", name.as_str(), "` is owned by ");
            text.append(mention(owner).as_str());
            return FlopMessagable::Text(text);
        }
        let reply_done = join3("Deleted command `", name.as_str(), "`");
        let reply_failed = join3("Failed to delete command `", name.as_str(), "`");
        if db.remove_command(registry, name) {
            FlopMessagable::Text(reply_done)
        } else {
            FlopMessagable::Text(reply_failed)
        }
    }
}

} // verus!
