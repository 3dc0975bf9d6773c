//! Adds a link to another command.

use vstd::prelude::*;
use crate::config::Cli;
use vstd::string::*;
use crate::clock::unix_now;
use crate::command::{check_name, name_allowed, CmdCtx, ConstructError, CtxView};
use crate::db::FlopDB;
use crate::message::{FlopMessagable, Message, ReplyView};
use crate::model::DbView;
use crate::node::{CmdNode, NodeView, SYMLINK_ID};
use crate::role::{FlopRole, RoleView};
use crate::stuff::{mention, mention_text};
use crate::text::{
    join3, join5, split_once, split_once_at, split_whitespace, strip_repeated, trim_start_matches,
    views, words,
};

verus! {

/// Adds a link to another command.
#[derive(Debug, Clone, Copy, PartialEq, Eq, Structural)]
pub struct LinkCommand;

/// Told to a user who names a command with characters that are not allowed.
pub const NAME_RULE: &'static str =
    "Command names must consist of alphanumeric characters or `-`, `_`";

/// Told to a user who lacks the role for what was asked.
pub const DENIED: &'static str = ":clueless:";

/// The target that a destination names: a registry and a name around the first
/// colon, or a name in the registry of the call.
pub open spec fn link_target(dest: Seq<char>, registry: Seq<char>) -> (Seq<char>, Seq<char>) {
    match split_once_at(dest, ':') {
        Some(pair) => pair,
        None => (registry, dest),
    }
}

/// What a call of the link command does to the registry and what it answers.
/// `now` is the time of the call.
pub open spec fn link_outcome(
    db: DbView,
    content: Seq<char>,
    author: u64,
    ctx: CtxView,
    now: i64,
) -> (DbView, Seq<char>) {
    let args = words(strip_repeated(content, ctx.command));
    if args.len() < 2 {
        (db, "Usage: `"@ + ctx.command + " (name) [registry:](destination`"@)
    } else {
        let name = args[0];
        let target = link_target(args[1], ctx.registry);
        if !name_allowed(name) {
            (db, NAME_RULE@)
        } else if !db.holds(author, RoleView::RegAdd(ctx.registry)) {
            (db, DENIED@)
        } else if db.lookup(ctx.registry, name) is Some {
            (
                db,
                "⚠️ `"@ + name + "` is already a command, owned by "@ + mention_text(
                    db.lookup(ctx.registry, name)->Some_0.owner,
                ),
            )
        } else if args[1].len() == 0 {
            (db, "No destination command given"@)
        } else if db.lookup(target.0, target.1) is None {
            (db, "`⚠️ "@ + target.0 + ":"@ + target.1 + "` doesnt exist"@)
        } else {
            (
                db.add(
                    ctx.registry,
                    name,
                    author,
                    SYMLINK_ID@,
                    now,
                    NodeView::Symlink { reg: target.0, name: target.1 },
                ),
                "Added link to `"@ + target.1 + "` called `"@ + name + "`"@,
            )
        }
    }
}

impl LinkCommand {
    /// Builds the command; it keeps neither the settings nor stored data.
    pub fn construct(_cli: &Cli, _data: &[u8]) -> (r: Result<LinkCommand, ConstructError>)
        ensures
            r == Ok::<LinkCommand, ConstructError>(LinkCommand),
    {
        Ok(LinkCommand)
    }

    /// Nothing is stored for this command.
    pub fn save(&self) -> (r: Option<Vec<u8>>)
        ensures
            r is None,
    {
        None
    }

    /// Runs the command at the moment of the call.
    pub fn execute(&mut self, msg: &Message, ctx: &CmdCtx, db: &mut FlopDB) -> (r: FlopMessagable)
        requires
            old(db).wf(),
        ensures
            final(db).wf(),
            exists|now: i64|
                (final(db)@, r@) == (
                    (#[trigger] link_outcome(old(db)@, msg.content@, msg.author, ctx@, now)).0,
                    ReplyView::Text(link_outcome(old(db)@, msg.content@, msg.author, ctx@, now).1),
                ),
    {
        let now = unix_now();
        let r = self.execute_at(msg, ctx, db, now);
        assert((db@, r@) == (
            link_outcome(old(db)@, msg.content@, msg.author, ctx@, now).0,
            ReplyView::Text(link_outcome(old(db)@, msg.content@, msg.author, ctx@, now).1),
        ));
        r
    }

    /// Runs the command as at the time `now`, in seconds since the epoch.
    pub fn execute_at(
        &mut self,
        msg: &Message,
        ctx: &CmdCtx,
        db: &mut FlopDB,
        now: i64,
    ) -> (r: FlopMessagable)
        requires
            old(db).wf(),
        ensures
            final(db).wf(),
            final(db)@ == link_outcome(old(db)@, msg.content@, msg.author, ctx@, now).0,
            r@ == ReplyView::Text(link_outcome(old(db)@, msg.content@, msg.author, ctx@, now).1),
    {
        let rest = trim_start_matches(msg.content.as_str(), ctx.command);
        let args = split_whitespace(rest.as_str());
        if args.len() < 2 {
            return FlopMessagable::Text(
                join3("Usage: `", ctx.command, " (name) [registry:](destination`"),
            );
        }
        assert(views(args@)[0] == args@[0]@ && views(args@)[1] == args@[1]@);
        let name = args[0].as_str();
        let dest = args[1].as_str();
        if !check_name(name) {
            return FlopMessagable::Text(NAME_RULE.to_owned());
        }
        if !db.user_has_role(msg.author, &FlopRole::RegAdd(ctx.registry.to_owned())) {
            return FlopMessagable::Text(DENIED.to_owned());
        }
        match db.get_command(ctx.registry.to_owned(), name.to_owned()) {
            Some(cmd) => {
                let mut text = join3("⚠️ `", name, "` is already a command, owned by ");
                text.append(mention(cmd.get_owner()).as_str());
                return FlopMessagable::Text(text);
            },
            None => {},
        }
        if dest.is_empty() {
            return FlopMessagable::Text("No destination command given".to_owned());
        }
        let (dest_reg, dest_name) = match split_once(dest, ':') {
            Some(pair) => pair,
            None => (ctx.registry.to_owned(), dest.to_owned()),
        };
        if !db.command_exists(dest_reg.clone(), dest_name.as_str()) {
            return FlopMessagable::Text(
                join5("`⚠️ ", dest_reg.as_str(), ":", dest_name.as_str(), "` doesnt exist"),
            );
        }
        let reply = join5("Added link to `", dest_name.as_str(), "` called `", name, "`");
        let node = CmdNode::Symlink { reg: dest_reg, name: dest_name };
        let _ = db.add_command_at(
            ctx.registry.to_owned(),
            name.to_owned(),
            msg.author,
            SYMLINK_ID.to_owned(),
            now,
            node,
        );
        FlopMessagable::Text(reply)
    }
}

} // verus!
