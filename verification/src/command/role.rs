//! Grants a role to a user, or revokes it.

use vstd::prelude::*;
use crate::config::Cli;
use vstd::string::*;
use crate::command::link::DENIED;
use crate::command::{CmdCtx, ConstructError, CtxView};
use crate::db::FlopDB;
use crate::message::{FlopMessagable, Message, ReplyView};
use crate::model::DbView;
use crate::role::{parse_role, FlopRole, RoleView};
use crate::stuff::{mention, mention_text, named_user, try_get_user};
use crate::text::{join3, split_whitespace, str_eq, strip_repeated, trim_start_matches, views, words};

verus! {

/// Grants a role to a user, or revokes it.
#[derive(Debug, Clone, Copy, PartialEq, Eq, Structural)]
pub struct RoleCommand;

/// What a call of the role command asks for.
pub enum RoleRequest {
    /// The arguments are incomplete.
    Usage,
    /// Grant, or with `revoke` take away, the role written as `role` for the
    /// user written as `user`.
    Change { user: Seq<char>, role: Seq<char>, revoke: bool },
}

/// Reads the arguments of the role command: a user and a role, with `-r`
/// before or after the role to revoke it.
pub open spec fn role_request(args: Seq<Seq<char>>) -> RoleRequest {
    if args.len() < 2 {
        RoleRequest::Usage
    } else if args[1] == "-r"@ {
        if args.len() < 3 {
            RoleRequest::Usage
        } else {
            RoleRequest::Change { user: args[0], role: args[2], revoke: true }
        }
    } else {
        RoleRequest::Change {
            user: args[0],
            role: args[1],
            revoke: args.len() >= 3 && args[2] == "-r"@,
        }
    }
}

/// The text that explains the arguments of the role command.
pub open spec fn role_usage(command: Seq<char>) -> Seq<char> {
    "Usage: `"@ + command + " (user) (role)` or `"@ + command + " (user) -r (role)` to remove role"@
}

/// What a call of the role command does to the registry and what it answers.
/// Only an administrator may change roles.
pub open spec fn role_outcome(db: DbView, content: Seq<char>, author: u64, ctx: CtxView) -> (
    DbView,
    Seq<char>,
) {
    match role_request(words(strip_repeated(content, ctx.command))) {
        RoleRequest::Usage => (db, role_usage(ctx.command)),
        RoleRequest::Change { user, role, revoke } => {
            if named_user(user) is None {
                (db, "Could not find user, only mentions or id is valid"@)
            } else if parse_role(role) is None {
                (db, "Didn't understand role `"@ + role + "`"@)
            } else if !db.holds(author, RoleView::Admin) {
                (db, DENIED@)
            } else {
                (
                    if revoke {
                        db.revoke(named_user(user)->Some_0, parse_role(role)->Some_0)
                    } else {
                        db.grant(named_user(user)->Some_0, parse_role(role)->Some_0)
                    },
                    "Gave role to `"@ + mention_text(named_user(user)->Some_0) + "`"@,
                )
            }
        },
    }
}

fn usage(command: &str) -> (r: String)
    ensures
        r@ == role_usage(command@),
{
    let mut out = join3("Usage: `", command, " (user) (role)` or `");
    out.append(command);
    out.append(" (user) -r (role)` to remove role");
    out
}

impl RoleCommand {
    /// Builds the command; it keeps neither the settings nor stored data.
    pub fn construct(_cli: &Cli, _data: &[u8]) -> (r: Result<RoleCommand, ConstructError>)
        ensures
            r == Ok::<RoleCommand, ConstructError>(RoleCommand),
    {
        Ok(RoleCommand)
    }

    /// Nothing is stored for this command.
    pub fn save(&self) -> (r: Option<Vec<u8>>)
        ensures
            r is None,
    {
        None
    }

    /// Runs the command.
    pub fn execute(&mut self, msg: &Message, ctx: &CmdCtx, db: &mut FlopDB) -> (r: FlopMessagable)
        requires
            old(db).wf(),
        ensures
            final(db).wf(),
            final(db)@ == role_outcome(old(db)@, msg.content@, msg.author, ctx@).0,
            r@ == ReplyView::Text(role_outcome(old(db)@, msg.content@, msg.author, ctx@).1),
    {
        let rest = trim_start_matches(msg.content.as_str(), ctx.command);
        let args = split_whitespace(rest.as_str());
        if args.len() < 2 {
            return FlopMessagable::Text(usage(ctx.command));
        }
        assert(views(args@)[0] == args@[0]@ && views(args@)[1] == args@[1]@);
        let user_text = args[0].as_str();
        let mut role_text = args[1].as_str();
        let mut revoke = str_eq(role_text, "-r");
        if revoke {
            if args.len() < 3 {
                return FlopMessagable::Text(usage(ctx.command));
            }
            assert(views(args@)[2] == args@[2]@);
            role_text = args[2].as_str();
        } else if args.len() >= 3 {
            assert(views(args@)[2] == args@[2]@);
            revoke = str_eq(args[2].as_str(), "-r");
        }
        let user = match try_get_user(user_text) {
            Some(user) => user,
            None => {
                return FlopMessagable::Text(
                    "Could not find user, only mentions or id is valid".to_owned(),
                );
            },
        };
        let role = match FlopRole::from_str(role_text) {
            Some(role) => role,
            None => {
                return FlopMessagable::Text(join3("Didn't understand role `", role_text, "`"));
            },
        };
        if !db.user_has_role(msg.author, &FlopRole::Admin) {
            return FlopMessagable::Text(DENIED.to_owned());
        }
        if revoke {
            db.remove_role(user, role);
        } else {
            db.give_role(user, role);
        }
        FlopMessagable::Text(join3("Gave role to `", mention(user).as_str(), "`"))
    }
}

} // verus!
