//! The plain-text command: it answers with a fixed reply.

use vstd::prelude::*;
use crate::config::Cli;
use vstd::string::*;
use vstd::utf8::*;
use crate::codec::{lossy_text, utf8_lossy};
use crate::command::ConstructError;
use crate::message::{FlopMessagable, ReplyView};

verus! {

/// Stored in place of a reply that is not text.
pub const ERROR_TEXT: &'static str = "⚠️**ERROR**⚠️ Unable to serialise value";

/// A command that answers with the reply it was built from.
#[derive(Debug)]
pub struct MessageCommand {
    message: FlopMessagable,
}

impl View for MessageCommand {
    type V = ReplyView;

    closed spec fn view(&self) -> ReplyView {
        self.message@
    }
}

/// The bytes under which a plain-text command with reply `m` is stored.
pub open spec fn message_saved(m: ReplyView) -> Seq<u8> {
    match m {
        ReplyView::Text(s) => encode_utf8(s),
        ReplyView::Nothing => encode_utf8(ERROR_TEXT@),
    }
}

impl Clone for MessageCommand {
    fn clone(&self) -> (r: MessageCommand)
        ensures
            r@ == self@,
    {
        MessageCommand { message: self.message.clone() }
    }
}

impl MessageCommand {
    /// Builds the command from stored bytes, read as UTF-8 text. A command
    /// built from well-formed bytes is stored under those bytes again.
    pub fn construct(_cli: &Cli, data: &[u8]) -> (r: Result<MessageCommand, ConstructError>)
        ensures
            r is Ok,
            r->Ok_0@ == ReplyView::Text(lossy_text(data@)),
            valid_utf8(data@) ==> r->Ok_0@ == ReplyView::Text(decode_utf8(data@)),
            valid_utf8(data@) ==> message_saved(r->Ok_0@) == data@,
    {
        proof {
            if valid_utf8(data@) {
                lemma_message_bytes_round_trip(data@);
            }
        }
        Ok(MessageCommand { message: FlopMessagable::Text(utf8_lossy(data)) })
    }

    /// The command that answers with `message`.
    pub fn new(message: FlopMessagable) -> (r: MessageCommand)
        ensures
            r@ == message@,
    {
        MessageCommand { message }
    }

    /// The reply of the command.
    pub fn execute(&mut self) -> (r: FlopMessagable)
        ensures
            r@ == old(self)@,
            final(self)@ == old(self)@,
    {
        self.message.clone()
    }

    /// The bytes to store for the command.
    pub fn save(&self) -> (r: Option<Vec<u8>>)
        ensures
            r is Some,
            r->Some_0@ == message_saved(self@),
    {
        match &self.message {
            FlopMessagable::Text(s) => Some(s.as_str().as_bytes_vec()),
            _ => Some(ERROR_TEXT.as_bytes_vec()),
        }
    }
}

/// Storing a plain-text command and building it again from the stored bytes
/// gives a command that is stored under the same bytes.
pub proof fn lemma_message_round_trip(m: ReplyView)
    ensures
        valid_utf8(message_saved(m)),
        message_saved(ReplyView::Text(decode_utf8(message_saved(m)))) == message_saved(m),
{
    let text = match m {
        ReplyView::Text(s) => s,
        ReplyView::Nothing => ERROR_TEXT@,
    };
    encode_utf8_valid_utf8(text);
    encode_utf8_decode_utf8(text);
}

/// Well-formed UTF-8 bytes are the stored form of the command built from them.
pub proof fn lemma_message_bytes_round_trip(data: Seq<u8>)
    requires
        valid_utf8(data),
    ensures
        message_saved(ReplyView::Text(decode_utf8(data))) == data,
{
    decode_utf8_encode_utf8(data);
}

} // verus!
