//! Tells when a command was added and who owns it.

use vstd::prelude::*;
use crate::config::Cli;
use vstd::string::*;
use crate::command::remove::{named_command, not_found, not_found_text};
use crate::command::{CmdCtx, ConstructError, CtxView};
use crate::db::FlopDB;
use crate::message::{FlopMessagable, Message, ReplyView};
use crate::model::DbView;
use crate::number::{i64_to_string, signed_decimal};
use crate::stuff::{mention, mention_text};
use crate::text::{
    join3, lowercase, split_once, split_whitespace, str_eq, strip_repeated, to_lowercase,
    trim_start_matches, views, words,
};

verus! {

/// Tells when a command was added and who owns it.
#[derive(Debug, Clone, Copy, PartialEq, Eq, Structural)]
pub struct InfoCommand;

/// The sentence about a command: its name, its registry where that is not the
/// registry of the call, the time it was added and its owner.
pub open spec fn info_text(
    name: Seq<char>,
    registry: Seq<char>,
    here: Seq<char>,
    added: i64,
    owner: u64,
) -> Seq<char> {
    "Command `"@ + name + "`"@ + (if registry != here {
        " in registry `"@ + registry + "`"@
    } else {
        Seq::empty()
    }) + " was added at <t:"@ + signed_decimal(added as int) + ":f>, and is owned by "@
        + mention_text(owner)
}

/// What a call of the info command answers. Asked about itself it answers from
/// the context of the call.
pub open spec fn info_outcome(db: DbView, content: Seq<char>, ctx: CtxView) -> Seq<char> {
    let args = words(strip_repeated(content, ctx.command));
    if args.len() < 1 {
        "Usage "@ + ctx.command + " [registry:](command)"@
    } else {
        let (registry, name) = named_command(args[0], ctx.registry);
        match db.lookup(registry, name) {
            None => not_found_text(registry, name, ctx.registry),
            Some(e) => if ctx.registry == registry && ctx.name == lowercase(name) {
                info_text(ctx.name, ctx.registry, ctx.registry, ctx.added, ctx.owner)
            } else {
                info_text(e.name, e.registry, ctx.registry, e.added, e.owner)
            },
        }
    }
}

fn describe(name: &str, registry: &str, here: &str, added: i64, owner: u64) -> (r: String)
    ensures
        r@ == info_text(name@, registry@, here@, added, owner),
{
    let mut out = join3("Command `", name, "`");
    if !str_eq(registry, here) {
        out.append(join3(" in registry `", registry, "`").as_str());
    } else {
        assert(out@ =~= out@ + Seq::<char>::empty());
    }
    out.append(" was added at <t:");
    out.append(i64_to_string(added).as_str());
    out.append(":f>, and is owned by ");
    out.append(mention(owner).as_str());
    out
}

impl InfoCommand {
    /// Builds the command; it keeps neither the settings nor stored data.
    pub fn construct(_cli: &Cli, _data: &[u8]) -> (r: Result<InfoCommand, ConstructError>)
        ensures
            r == Ok::<InfoCommand, ConstructError>(InfoCommand),
    {
        Ok(InfoCommand)
    }

    /// Nothing is stored for this command.
    pub fn save(&self) -> (r: Option<Vec<u8>>)
        ensures
            r is None,
    {
        None
    }

    /// Runs the command.
    pub fn execute(&mut self, msg: &Message, ctx: &CmdCtx, db: &FlopDB) -> (r: FlopMessagable)
        requires
            db.wf(),
        ensures
            r@ == ReplyView::Text(info_outcome(db@, msg.content@, ctx@)),
    {
        let rest = trim_start_matches(msg.content.as_str(), ctx.command);
        let args = split_whitespace(rest.as_str());
        if args.len() < 1 {
            return FlopMessagable::Text(join3("Usage ", ctx.command, " [registry:](command)"));
        }
        assert(views(args@)[0] == args@[0]@);
        let (registry, name) = match split_once(args[0].as_str(), ':') {
            Some(pair) => pair,
            None => (ctx.registry.to_owned(), args[0].clone()),
        };
        let cmd = match db.get_command(registry.clone(), name.clone()) {
            Some(cmd) => cmd,
            None => {
                return FlopMessagable::Text(
                    not_found(registry.as_str(), name.as_str(), ctx.registry),
                );
            },
        };
        if str_eq(ctx.registry, registry.as_str()) && str_eq(
            ctx.name,
            to_lowercase(name.as_str()).as_str(),
        ) {
            return FlopMessagable::Text(
                describe(ctx.name, ctx.registry, ctx.registry, ctx.added, ctx.owner),
            );
        }
        FlopMessagable::Text(
            describe(
                cmd.get_name(),
                cmd.get_registry(),
                ctx.registry,
                cmd.get_added(),
                cmd.get_owner(),
            ),
        )
    }
}

} // verus!
