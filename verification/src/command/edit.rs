//! Replaces the reply of a plain-text command.

use vstd::prelude::*;
use crate::config::{Cli, CliView};
use vstd::string::*;
use vstd::utf8::*;
use crate::command::{CmdCtx, CommandObject, CommandView, ConstructError, CtxView, MessageCommand};
use crate::db::FlopDB;
use crate::message::{FlopMessagable, Message, ReplyView};
use crate::model::DbView;
use crate::node::{CmdNode, NodeView};
use crate::stuff::{mention, mention_text};
use crate::text::{
    join3, lowercase, split_once_whitespace, split_once_ws, str_eq, strip_repeated, to_lowercase,
    trim, trim_start_matches, trimmed,
};

verus! {

/// Replaces the reply of a plain-text command.
#[derive(Debug)]
pub struct EditCommand {
    cli: Cli,
}

impl View for EditCommand {
    type V = CliView;

    closed spec fn view(&self) -> CliView {
        self.cli@
    }
}

impl Clone for EditCommand {
    fn clone(&self) -> (r: EditCommand)
        ensures
            r@ == self@,
    {
        EditCommand { cli: self.cli.clone() }
    }
}

/// The type tag of a plain-text command.
pub const TEXT_COMMAND: &'static str = "MessageCommand";

/// What a call of the edit command does to the registry and what it answers.
/// Only its owner may edit a command, only a plain-text command can be edited,
/// and the edit command cannot edit itself. The edited entry is marked as
/// changed.
pub open spec fn edit_outcome(db: DbView, content: Seq<char>, author: u64, ctx: CtxView) -> (
    DbView,
    Seq<char>,
) {
    match split_once_ws(trimmed(strip_repeated(content, ctx.command))) {
        None => (db, "Usage: `"@ + ctx.command + " (name) (body)`"@),
        Some((name, body)) => {
            if ctx.name == lowercase(name) {
                (db, "Insufficent perms to edit this command"@)
            } else {
                match db.lookup(ctx.registry, name) {
                    None => (db, "⚠️ `"@ + name + "` is not a command"@),
                    Some(e) => if e.owner != author {
                        (db, "⚠️ `"@ + name + "` is owned by "@ + mention_text(e.owner))
                    } else if e.ty != TEXT_COMMAND@ {
                        (db, "⚠️ `"@ + name + "` is not a text command"@)
                    } else {
                        (
                            db.with_node(
                                ctx.registry,
                                lowercase(name),
                                NodeView::Cmd(CommandView::Message(ReplyView::Text(body))),
                            ).mark_dirty(e.registry, e.name),
                            "Edited command `"@ + name + "`"@,
                        )
                    },
                }
            }
        },
    }
}

impl EditCommand {
    /// Builds the command; it keeps the settings and no stored data.
    pub fn construct(cli: &Cli, _data: &[u8]) -> (r: Result<EditCommand, ConstructError>)
        ensures
            r is Ok,
            r->Ok_0@ == cli@,
    {
        Ok(EditCommand { cli: cli.clone() })
    }

    /// Nothing is stored for this command.
    pub fn save(&self) -> (r: Option<Vec<u8>>)
        ensures
            r is None,
    {
        None
    }

    /// Runs the command.
    pub fn execute(&mut self, msg: &Message, ctx: &CmdCtx, db: &mut FlopDB) -> (r: FlopMessagable)
        requires
            old(db).wf(),
        ensures
            final(db).wf(),
            final(self)@ == old(self)@,
            final(db)@ == edit_outcome(old(db)@, msg.content@, msg.author, ctx@).0,
            r@ == ReplyView::Text(edit_outcome(old(db)@, msg.content@, msg.author, ctx@).1),
    {
        let rest = trim_start_matches(msg.content.as_str(), ctx.command);
        let args = trim(rest.as_str());
        let (name, body) = match split_once_whitespace(args.as_str()) {
            Some(pair) => pair,
            None => {
                return FlopMessagable::Text(join3("Usage: `", ctx.command, " (name) (body)`"));
            },
        };
        let lower = to_lowercase(name.as_str());
        if str_eq(ctx.name, lower.as_str()) {
            return FlopMessagable::Text("Insufficent perms to edit this command".to_owned());
        }
        let (owner, is_text, registry, stored_name) = match db.get_command(
            ctx.registry.to_owned(),
            name.clone(),
        ) {
            Some(cmd) => (
                cmd.get_owner(),
                str_eq(cmd.get_type(), TEXT_COMMAND),
                cmd.get_registry().to_owned(),
                cmd.get_name().to_owned(),
            ),
            None => {
                return FlopMessagable::Text(join3("⚠️ `", name.as_str(), "` is not a command"));
            },
        };
        if owner != msg.author {
            let mut text = join3("⚠️ `", name.as_str(), "` is owned by ");
            text.append(mention(owner).as_str());
            return FlopMessagable::Text(text);
        }
        if !is_text {
            return FlopMessagable::Text(
                join3("⚠️ `", name.as_str(), "` is not a text command"),
            );
        }
        let reply = join3("Edited command `", name.as_str(), "`");
        let new_cmd = MessageCommand::new(FlopMessagable::Text(body));
        let _ = db.set_node(
            ctx.registry,
            lower.as_str(),
            CmdNode::Cmd(CommandObject::Message(new_cmd)),
        );
        db.mark_dirty(registry, stored_name);
        FlopMessagable::Text(reply)
    }
}

} // verus!
