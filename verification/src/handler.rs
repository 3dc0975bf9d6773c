//! What a received message leads to: a reaction, a command that is run, or an
//! answer that tells why none was.

use vstd::prelude::*;
use vstd::string::*;
use vstd::utf8::encode_utf8;
use crate::clock::unix_now;
use crate::command::add::{encoded_view, transcoded};
use crate::command::{executed, AddCommand, CmdCtx, CommandObject, CtxView, Execution, ExecutionView};
use crate::db::FlopDB;
use crate::dirty::key_views;
use crate::entries::Key;
use crate::message::{FlopMessagable, Message, ReplyView};
use crate::model::DbView;
use crate::node::{CmdNode, NodeView};
use crate::number::{decimal, u64_to_string};
use crate::resolve::{CanonicalisedStatus, CanonicalsedResult, Resolution};
use crate::text::{join3, join5, lowercase, starts_with, substring};

verus! {

/// The answer to a command that lies too deep.
pub const TOO_DEEP: &'static str = "This command is nested too deep to be run";

/// The answer to a call that names no command at all.
pub const NO_COMMAND: &'static str = "No command was given";

/// The places of a walk, each as `registry:name` between backticks and followed
/// by an arrow.
pub open spec fn chain_text(stack: Seq<Key>) -> Seq<char>
    decreases stack.len(),
{
    if stack.len() == 0 {
        Seq::empty()
    } else {
        chain_text(stack.drop_last()) + "`"@ + stack.last().0 + ":"@ + stack.last().1
            + "` -> "@
    }
}

/// The answer to a subregistry that was called without a command: the length
/// of the prefix in bytes and the call text, then how to call it.
pub open spec fn registry_usage(prefix: Seq<char>, call: Seq<char>) -> Seq<char> {
    decimal(encode_utf8(prefix).len()) + call + " is a registry, usage `"@ + decimal(
        encode_utf8(prefix).len(),
    ) + call + " [command name]`"@
}

/// The answer that tells why a resolution did not find a command; none where a
/// command was found. A name that is not found is told with the place where it
/// was looked up last.
pub open spec fn status_reply(res: Resolution, prefix: Seq<char>) -> Option<Seq<char>> {
    match res.status {
        CanonicalisedStatus::Success => None,
        CanonicalisedStatus::Overflow => Some(TOO_DEEP@),
        CanonicalisedStatus::NotFound => if res.stack.len() > 0 {
            Some("Cannot find command "@ + res.stack.last().0 + ":"@ + res.stack.last().1)
        } else {
            Some(NO_COMMAND@)
        },
        CanonicalisedStatus::Recursive => Some("Recursive loop:\n"@ + chain_text(res.stack)),
        CanonicalisedStatus::FailedSubcommand => Some(registry_usage(prefix, res.call)),
    }
}

/// The place at which a resolution ended: the last of its stack.
pub open spec fn target_of(res: Resolution) -> Key {
    if res.stack.len() > 0 {
        res.stack.last()
    } else {
        (Seq::empty(), Seq::empty())
    }
}

/// The context in which the command that a message calls is run: the prefix
/// and the call text, the place where the command was found, its owner and the
/// time it was added.
pub open spec fn context_of(
    db: DbView,
    prefix: Seq<char>,
    registry: Seq<char>,
    content: Seq<char>,
) -> CtxView {
    let res = db.resolve(registry, content.skip(prefix.len() as int));
    let target = target_of(res);
    let e = db.commands[(target.0, lowercase(target.1))];
    CtxView {
        command: prefix + res.call,
        registry: target.0,
        name: target.1,
        owner: e.owner,
        added: e.added,
    }
}

/// What a message leads to: the registry afterwards, and what is to be sent or
/// done, if anything. A message of a program, or one without the prefix, leads
/// to nothing. The text after the prefix is resolved from `registry`; a
/// resolution that finds no command is answered with the reason; a command
/// that is found is run with the context of the call.
pub open spec fn handled(
    db: DbView,
    prefix: Seq<char>,
    registry: Seq<char>,
    content: Seq<char>,
    author: u64,
    bot: bool,
    now: i64,
    encoded: Result<Seq<u8>, Seq<char>>,
) -> (DbView, Option<ExecutionView>) {
    if bot || !prefix.is_prefix_of(content) {
        (db, None)
    } else {
        let res = db.resolve(registry, content.skip(prefix.len() as int));
        if res.status != CanonicalisedStatus::Success {
            (
                db,
                match status_reply(res, prefix) {
                    Some(text) => Some(ExecutionView::Reply(ReplyView::Text(text))),
                    None => None,
                },
            )
        } else {
            let target = target_of(res);
            match db.lookup(target.0, target.1) {
                None => (db, None),
                Some(e) => match e.node {
                    NodeView::Cmd(c) => {
                        let ctx = context_of(db, prefix, registry, content);
                        let done = executed(c, db, content, author, ctx, now, encoded);
                        (
                            done.0,
                            if done.1 == ExecutionView::Reply(ReplyView::Nothing) {
                                None
                            } else {
                                Some(done.1)
                            },
                        )
                    },
                    _ => (db, None),
                },
            }
        }
    }
}

/// The view of what is to be sent or done, if anything.
pub open spec fn execution_view(e: Option<Execution>) -> Option<ExecutionView> {
    match e {
        Some(x) => Some(x@),
        None => None,
    }
}

fn chain(stack: &Vec<(String, String)>) -> (r: String)
    ensures
        r@ == chain_text(key_views(stack@)),
{
    let mut out = String::new();
    let mut i: usize = 0;
    while i < stack.len()
        invariant
            i <= stack@.len(),
            out@ == chain_text(key_views(stack@).take(i as int)),
        decreases stack@.len() - i,
    {
        proof {
            assert(key_views(stack@).take(i + 1).drop_last() =~= key_views(stack@).take(i as int));
        }
        let ghost before = out@;
        out.append(
            join5("`", stack[i].0.as_str(), ":", stack[i].1.as_str(), "` -> ").as_str(),
        );
        assert(out@ =~= before + "`"@ + stack@[i as int].0@ + ":"@ + stack@[i as int].1@
            + "` -> "@);
        i += 1;
    }
    assert(key_views(stack@).take(i as int) =~= key_views(stack@));
    out
}

fn explain(res: &CanonicalsedResult, prefix: &str) -> (r: Option<String>)
    ensures
        match r {
            Some(text) => status_reply(res@, prefix@) == Some(text@),
            None => status_reply(res@, prefix@) is None,
        },
{
    match res.status {
        CanonicalisedStatus::Success => None,
        CanonicalisedStatus::Overflow => Some(TOO_DEEP.to_owned()),
        CanonicalisedStatus::NotFound => {
            if res.stack.len() > 0 {
                let last = &res.stack[res.stack.len() - 1];
                assert(key_views(res.stack@).last() == (last.0@, last.1@));
                let mut text = join3("Cannot find command ", last.0.as_str(), ":");
                text.append(last.1.as_str());
                Some(text)
            } else {
                Some(NO_COMMAND.to_owned())
            }
        },
        CanonicalisedStatus::Recursive => {
            let mut text = "Recursive loop:\n".to_owned();
            text.append(chain(&res.stack).as_str());
            Some(text)
        },
        CanonicalisedStatus::FailedSubcommand => {
            let width = u64_to_string(prefix.as_bytes().len() as u64);
            let mut text = join3(width.as_str(), res.call.as_str(), " is a registry, usage `");
            text.append(width.as_str());
            text.append(res.call.as_str());
            text.append(" [command name]`");
            Some(text)
        },
    }
}

fn handle(
    db: &mut FlopDB,
    prefix: &str,
    registry: &str,
    msg: &Message,
    given: Option<(i64, Result<Vec<u8>, String>)>,
) -> (r: Option<Execution>)
    requires
        old(db).wf(),
    ensures
        final(db).wf(),
        exists|now: i64, encoded: Result<Seq<u8>, Seq<char>>|
            {
                &&& given is Some ==> now == given->Some_0.0 && encoded == encoded_view(
                    given->Some_0.1,
                )
                &&& given is None ==> encoded == transcoded(
                    msg.content@,
                    context_of(old(db)@, prefix@, registry@, msg.content@),
                )
                &&& (final(db)@, execution_view(r)) == #[trigger] handled(
                    old(db)@,
                    prefix@,
                    registry@,
                    msg.content@,
                    msg.author,
                    msg.bot,
                    now,
                    encoded,
                )
            },
{
    let ghost any_now: i64 = if given is Some {
        given->Some_0.0
    } else {
        0
    };
    let ghost any_encoded: Result<Seq<u8>, Seq<char>> = if given is Some {
        encoded_view(given->Some_0.1)
    } else {
        transcoded(msg.content@, context_of(db@, prefix@, registry@, msg.content@))
    };
    let ghost before = db@;
    let ghost goal = |now: i64, encoded: Result<Seq<u8>, Seq<char>>|
        handled(before, prefix@, registry@, msg.content@, msg.author, msg.bot, now, encoded);
    if msg.bot || !starts_with(msg.content.as_str(), prefix) {
        assert((db@, execution_view(None)) == goal(any_now, any_encoded));
        return None;
    }
    let total: usize = msg.content.as_str().unicode_len();
    let skip: usize = prefix.unicode_len();
    let name = substring(msg.content.as_str(), skip, total);
    assert(name@ =~= msg.content@.skip(prefix@.len() as int));
    let res = db.canonicalise_command(registry.to_owned(), name);
    if res.status != CanonicalisedStatus::Success {
        let r = match explain(&res, prefix) {
            Some(text) => Some(Execution::Reply(FlopMessagable::Text(text))),
            None => None,
        };
        assert((db@, execution_view(r)) == goal(any_now, any_encoded));
        return r;
    }
    let (target_registry, target_name) = if res.stack.len() > 0 {
        let last = &res.stack[res.stack.len() - 1];
        assert(key_views(res.stack@).last() == (last.0@, last.1@));
        (last.0.clone(), last.1.clone())
    } else {
        (String::new(), String::new())
    };
    let found = match db.get_command(target_registry.clone(), target_name.clone()) {
        Some(entry) => match entry.node() {
            CmdNode::Cmd(cmd) => Some((cmd.clone(), entry.get_owner(), entry.get_added())),
            _ => None,
        },
        None => None,
    };
    let (mut cmd, owner, added) = match found {
        Some(f) => f,
        None => {
            assert((db@, execution_view(None)) == goal(any_now, any_encoded));
            return None;
        },
    };
    let mut command = prefix.to_owned();
    command.append(res.call.as_str());
    let ctx = CmdCtx {
        command: command.as_str(),
        registry: target_registry.as_str(),
        name: target_name.as_str(),
        owner,
        added,
    };
    let (now, encoded) = match given {
        Some(g) => g,
        None => (
            unix_now(),
            match cmd {
                CommandObject::Add(_) => AddCommand::transcode(msg, &ctx),
                _ => Ok(Vec::new()),
            },
        ),
    };
    assert(ctx@ == context_of(before, prefix@, registry@, msg.content@));
    let done = cmd.execute_with(msg, &ctx, db, now, encoded);
    let r = match done {
        Execution::Reply(m) => if m.is_none() {
            None
        } else {
            Some(Execution::Reply(m))
        },
        other => Some(other),
    };
    assert((db@, execution_view(r)) == goal(now, any_encoded));
    r
}

/// Handles a received message at the moment of the call: runs the command that
/// it calls, if it calls one, and tells what is to be sent or done.
pub fn handle_command(db: &mut FlopDB, prefix: &str, registry: &str, msg: &Message) -> (r: Option<
    Execution,
>)
    requires
        old(db).wf(),
    ensures
        final(db).wf(),
        exists|now: i64|
            (final(db)@, execution_view(r)) == #[trigger] handled(
                old(db)@,
                prefix@,
                registry@,
                msg.content@,
                msg.author,
                msg.bot,
                now,
                transcoded(msg.content@, context_of(old(db)@, prefix@, registry@, msg.content@)),
            ),
{
    handle(db, prefix, registry, msg, None)
}

/// Handles a received message as at the time `now`, in seconds since the epoch,
/// with `encoded` as what turning the JSON data of the call into MessagePack
/// gave.
pub fn handle_command_with(
    db: &mut FlopDB,
    prefix: &str,
    registry: &str,
    msg: &Message,
    now: i64,
    encoded: Result<Vec<u8>, String>,
) -> (r: Option<Execution>)
    requires
        old(db).wf(),
    ensures
        final(db).wf(),
        (final(db)@, execution_view(r)) == handled(
            old(db)@,
            prefix@,
            registry@,
            msg.content@,
            msg.author,
            msg.bot,
            now,
            encoded_view(encoded),
        ),
{
    handle(db, prefix, registry, msg, Some((now, encoded)))
}

/// A call that finds no command is never met with silence: whatever the
/// reason, the registry stays as it is and a text tells the reason.
pub proof fn lemma_every_failure_is_answered(
    db: DbView,
    prefix: Seq<char>,
    registry: Seq<char>,
    content: Seq<char>,
    author: u64,
    now: i64,
    encoded: Result<Seq<u8>, Seq<char>>,
)
    requires
        prefix.is_prefix_of(content),
        db.resolve(registry, content.skip(prefix.len() as int)).status
            != CanonicalisedStatus::Success,
    ensures
        handled(db, prefix, registry, content, author, false, now, encoded).0 == db,
        handled(db, prefix, registry, content, author, false, now, encoded).1 is Some,
        handled(db, prefix, registry, content, author, false, now, encoded).1->Some_0
            == ExecutionView::Reply(
            ReplyView::Text(
                status_reply(
                    db.resolve(registry, content.skip(prefix.len() as int)),
                    prefix,
                )->Some_0,
            ),
        ),
{
}

} // verus!
