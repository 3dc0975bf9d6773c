//! Adds a command to the registry it is called in.

use vstd::prelude::*;
use crate::config::{Cli, CliView};
use vstd::string::*;
use crate::clock::unix_now;
use crate::codec::{json_error, json_msgpack, json_problem, json_to_msgpack};
use crate::command::edit::TEXT_COMMAND;
use crate::command::link::NAME_RULE;
use crate::command::{
    check_name, construct, constructed, is_valid, name_allowed, valid_tag, CmdCtx, CommandObject,
    CommandView, ConstructError, CtxView, MessageCommand,
};
use crate::db::FlopDB;
use crate::message::{FlopMessagable, Message, ReplyView};
use crate::model::DbView;
use crate::node::{CmdNode, NodeView};
use crate::stuff::{mention, mention_text};
use crate::text::{
    join3, split_once_whitespace, split_once_ws, starts_with, strip_repeated, substring, trim,
    trim_start_matches, trimmed,
};

verus! {

/// Adds a command to the registry it is called in.
#[derive(Debug)]
pub struct AddCommand {
    cli: Cli,
}

impl View for AddCommand {
    type V = CliView;

    closed spec fn view(&self) -> CliView {
        self.cli@
    }
}

impl Clone for AddCommand {
    fn clone(&self) -> (r: AddCommand)
        ensures
            r@ == self@,
    {
        AddCommand { cli: self.cli.clone() }
    }
}

/// What begins the body of a command that is given by its type.
pub const TYPE_MARK: &'static str = "--[";

/// The outcome of turning JSON data into MessagePack: the bytes, or the words
/// of the failure.
pub open spec fn encoded_view(r: Result<Vec<u8>, String>) -> Result<Seq<u8>, Seq<char>> {
    match r {
        Ok(b) => Ok(b@),
        Err(e) => Err(e@),
    }
}

/// The part of a type tag between its first three characters and its last
/// `tail` characters; empty where the tag is too short.
pub open spec fn tag_core(tag: Seq<char>, tail: int) -> Seq<char> {
    if tag.len() - tail >= 3 {
        tag.subrange(3, tag.len() - tail)
    } else {
        Seq::empty()
    }
}

/// The type and the JSON data of a body that begins with the type mark. With
/// data after it, the tag ends at the first white space and loses its last two
/// characters; alone, it loses its last character.
pub open spec fn typed_body(body: Seq<char>) -> (Seq<char>, Seq<char>) {
    match split_once_ws(body) {
        Some((tag, data)) => (tag_core(tag, 2), data),
        None => (tag_core(body, 1), Seq::empty()),
    }
}

/// The text that explains the arguments of the add command.
pub open spec fn add_usage(command: Seq<char>) -> Seq<char> {
    "Usage: `"@ + command + " (name) (body)`\nor`"@ + command
        + " (name) (--[type]) [json data]"@
}

/// The JSON data that a call of the add command carries, if it carries any: the
/// data of a typed body, where there is some.
pub open spec fn add_json(content: Seq<char>, ctx: CtxView) -> Option<Seq<char>> {
    match split_once_ws(trimmed(strip_repeated(content, ctx.command))) {
        None => None,
        Some((name, body)) => if TYPE_MARK@.is_prefix_of(body) && typed_body(body).1.len() > 0 {
            Some(typed_body(body).1)
        } else {
            None
        },
    }
}

/// What turning the JSON data of a call into MessagePack gives: the bytes, or
/// the words of the failure; no bytes for a call without data.
pub open spec fn transcoded(content: Seq<char>, ctx: CtxView) -> Result<Seq<u8>, Seq<char>> {
    match add_json(content, ctx) {
        Some(json) => json_msgpack(json),
        None => Ok(Seq::empty()),
    }
}

/// What a call of the add command does to the registry and what it answers.
/// `now` is the time of the call; `encoded` is what turning the JSON data of
/// the call into MessagePack gave, and matters only where the call carries JSON
/// data that is well formed; `cli` are the settings that the add command
/// hands to the command it builds.
pub open spec fn add_outcome(
    db: DbView,
    content: Seq<char>,
    author: u64,
    ctx: CtxView,
    now: i64,
    encoded: Result<Seq<u8>, Seq<char>>,
    cli: CliView,
) -> (DbView, Seq<char>) {
    match split_once_ws(trimmed(strip_repeated(content, ctx.command))) {
        None => (db, add_usage(ctx.command)),
        Some((name, body)) => {
            if !name_allowed(name) {
                (db, NAME_RULE@)
            } else if db.lookup(ctx.registry, name) is Some {
                (
                    db,
                    "⚠️ `"@ + name + "` is already a command, owned by "@ + mention_text(
                        db.lookup(ctx.registry, name)->Some_0.owner,
                    ),
                )
            } else if TYPE_MARK@.is_prefix_of(body) {
                let (ty, json) = typed_body(body);
                if json.len() > 0 && json_error(json) is Some {
                    (
                        db,
                        "⚠️ Error deseralising json data: ```"@ + json_error(json)->Some_0
                            + "```"@,
                    )
                } else if json.len() > 0 && encoded is Err {
                    (db, "⚠️ Error seralising msgpack data: ```"@ + encoded->Err_0 + "```"@)
                } else if !valid_tag(ty) {
                    (db, "⚠️ `"@ + ty + "` is not a valid command type"@)
                } else {
                    (
                        db.add(
                            ctx.registry,
                            name,
                            author,
                            ty,
                            now,
                            NodeView::Cmd(
                                constructed(
                                    ty,
                                    if json.len() > 0 {
                                        encoded->Ok_0
                                    } else {
                                        Seq::empty()
                                    },
                                    cli,
                                ),
                            ),
                        ),
                        "Added command `"@ + name + "`"@,
                    )
                }
            } else {
                (
                    db.add(
                        ctx.registry,
                        name,
                        author,
                        TEXT_COMMAND@,
                        now,
                        NodeView::Cmd(CommandView::Message(ReplyView::Text(body))),
                    ),
                    "Added command `"@ + name + "`"@,
                )
            }
        },
    }
}

fn usage(command: &str) -> (r: String)
    ensures
        r@ == add_usage(command@),
{
    let mut out = join3("Usage: `", command, " (name) (body)`\nor`");
    out.append(command);
    out.append(" (name) (--[type]) [json data]");
    out
}

fn core_of(tag: &str, tail: usize) -> (r: String)
    requires
        tail <= 2,
    ensures
        r@ == tag_core(tag@, tail as int),
{
    let n: usize = tag.unicode_len();
    if n >= tail && n - tail >= 3 {
        substring(tag, 3, n - tail)
    } else {
        String::new()
    }
}

fn split_typed(body: &str) -> (r: (String, String))
    ensures
        (r.0@, r.1@) == typed_body(body@),
{
    match split_once_whitespace(body) {
        Some((tag, data)) => (core_of(tag.as_str(), 2), data),
        None => (core_of(body, 1), String::new()),
    }
}

impl AddCommand {
    /// Builds the command; it keeps the settings and no stored data.
    pub fn construct(cli: &Cli, _data: &[u8]) -> (r: Result<AddCommand, ConstructError>)
        ensures
            r is Ok,
            r->Ok_0@ == cli@,
    {
        Ok(AddCommand { cli: cli.clone() })
    }

    /// Nothing is stored for this command.
    pub fn save(&self) -> (r: Option<Vec<u8>>)
        ensures
            r is None,
    {
        None
    }

    /// The JSON data that the call carries, if it carries any.
    pub fn json_data(msg: &Message, ctx: &CmdCtx) -> (r: Option<String>)
        ensures
            match r {
                Some(json) => add_json(msg.content@, ctx@) == Some(json@),
                None => add_json(msg.content@, ctx@) is None,
            },
    {
        let rest = trim_start_matches(msg.content.as_str(), ctx.command);
        let args = trim(rest.as_str());
        match split_once_whitespace(args.as_str()) {
            None => None,
            Some((_, body)) => {
                if starts_with(body.as_str(), TYPE_MARK) {
                    let (_, json) = split_typed(body.as_str());
                    if json.as_str().unicode_len() > 0 {
                        Some(json)
                    } else {
                        None
                    }
                } else {
                    None
                }
            },
        }
    }

    /// Turns the JSON data of the call into MessagePack: the bytes, or the words
    /// of the failure; no bytes where the call carries no data.
    pub fn transcode(msg: &Message, ctx: &CmdCtx) -> (r: Result<Vec<u8>, String>)
        ensures
            encoded_view(r) == transcoded(msg.content@, ctx@),
    {
        match AddCommand::json_data(msg, ctx) {
            Some(json) => json_to_msgpack(json.as_str()),
            None => Ok(Vec::new()),
        }
    }

    /// Runs the command at the moment of the call. JSON data of the call is
    /// turned into MessagePack on the way.
    pub fn execute(&mut self, msg: &Message, ctx: &CmdCtx, db: &mut FlopDB) -> (r: FlopMessagable)
        requires
            old(db).wf(),
        ensures
            final(db).wf(),
            final(self)@ == old(self)@,
            exists|now: i64|
                (final(db)@, r@) == (
                    (#[trigger] add_outcome(
                        old(db)@,
                        msg.content@,
                        msg.author,
                        ctx@,
                        now,
                        transcoded(msg.content@, ctx@),
                        old(self)@,
                    )).0,
                    ReplyView::Text(
                        add_outcome(
                            old(db)@,
                            msg.content@,
                            msg.author,
                            ctx@,
                            now,
                            transcoded(msg.content@, ctx@),
                            old(self)@,
                        ).1,
                    ),
                ),
    {
        let now = unix_now();
        let encoded = AddCommand::transcode(msg, ctx);
        let ghost given = encoded_view(encoded);
        let r = self.execute_with(msg, ctx, db, now, encoded);
        assert((db@, r@) == (
            add_outcome(old(db)@, msg.content@, msg.author, ctx@, now, given, old(self)@).0,
            ReplyView::Text(
                add_outcome(old(db)@, msg.content@, msg.author, ctx@, now, given, old(self)@).1,
            ),
        ));
        r
    }

    /// Runs the command as at the time `now`, in seconds since the epoch, with
    /// `encoded` as what turning the JSON data of the call into MessagePack
    /// gave.
    pub fn execute_with(
        &mut self,
        msg: &Message,
        ctx: &CmdCtx,
        db: &mut FlopDB,
        now: i64,
        encoded: Result<Vec<u8>, String>,
    ) -> (r: FlopMessagable)
        requires
            old(db).wf(),
        ensures
            final(db).wf(),
            final(self)@ == old(self)@,
            final(db)@ == add_outcome(
                old(db)@,
                msg.content@,
                msg.author,
                ctx@,
                now,
                encoded_view(encoded),
                old(self)@,
            ).0,
            r@ == ReplyView::Text(
                add_outcome(
                    old(db)@,
                    msg.content@,
                    msg.author,
                    ctx@,
                    now,
                    encoded_view(encoded),
                    old(self)@,
                ).1,
            ),
    {
        let rest = trim_start_matches(msg.content.as_str(), ctx.command);
        let args = trim(rest.as_str());
        let (name, body) = match split_once_whitespace(args.as_str()) {
            Some(pair) => pair,
            None => {
                return FlopMessagable::Text(usage(ctx.command));
            },
        };
        if !check_name(name.as_str()) {
            return FlopMessagable::Text(NAME_RULE.to_owned());
        }
        match db.get_command(ctx.registry.to_owned(), name.clone()) {
            Some(cmd) => {
                let mut text = join3("⚠️ `", name.as_str(), "` is already a command, owned by ");
                text.append(mention(cmd.get_owner()).as_str());
                return FlopMessagable::Text(text);
            },
            None => {},
        }
        let reply = join3("Added command `", name.as_str(), "`");
        if starts_with(body.as_str(), TYPE_MARK) {
            let (ty, json) = split_typed(body.as_str());
            let mut data: Vec<u8> = Vec::new();
            if json.as_str().unicode_len() > 0 {
                match json_problem(json.as_str()) {
                    None => {},
                    Some(e) => {
                        return FlopMessagable::Text(
                            join3("⚠️ Error deseralising json data: ```", e.as_str(), "```"),
                        );
                    },
                }
                match encoded {
                    Ok(bytes) => {
                        data = bytes;
                    },
                    Err(e) => {
                        return FlopMessagable::Text(
                            join3("⚠️ Error seralising msgpack data: ```", e.as_str(), "```"),
                        );
                    },
                }
            }
            if !is_valid(ty.as_str()) {
                return FlopMessagable::Text(
                    join3("⚠️ `", ty.as_str(), "` is not a valid command type"),
                );
            }
            // A known type tag always builds its command.
            let cmd = match construct(ty.as_str(), data.as_slice(), &self.cli) {
                Ok(cmd) => cmd,
                Err(_) => {
                    return FlopMessagable::Text(reply);
                },
            };
            let _ = db.add_command_at(
                ctx.registry.to_owned(),
                name,
                msg.author,
                ty,
                now,
                CmdNode::Cmd(cmd),
            );
        } else {
            let cmd = MessageCommand::new(FlopMessagable::Text(body));
            let _ = db.add_command_at(
                ctx.registry.to_owned(),
                name,
                msg.author,
                TEXT_COMMAND.to_owned(),
                now,
                CmdNode::Cmd(CommandObject::Message(cmd)),
            );
        }
        FlopMessagable::Text(reply)
    }
}

} // verus!
