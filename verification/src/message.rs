//! What a command hands back to be sent as a reply.

use vstd::prelude::*;

verus! {

/// What the registry reads of a message that was received.
#[derive(Debug)]
pub struct Message {
    /// The text of the message.
    pub content: String,
    /// The user who wrote it.
    pub author: u64,
    /// Whether the author is a program.
    pub bot: bool,
}

/// The reply of a command.
#[derive(Debug)]
pub enum FlopMessagable {
    /// The text of the reply.
    Text(String),
    /// No reply is to be sent.
    _None,
}

/// A reply as a mathematical value.
pub enum ReplyView {
    Text(Seq<char>),
    Nothing,
}

impl View for FlopMessagable {
    type V = ReplyView;

    open spec fn view(&self) -> ReplyView {
        match self {
            FlopMessagable::Text(s) => ReplyView::Text(s@),
            FlopMessagable::_None => ReplyView::Nothing,
        }
    }
}

impl Clone for FlopMessagable {
    fn clone(&self) -> (r: FlopMessagable)
        ensures
            r@ == self@,
    {
        match self {
            FlopMessagable::Text(s) => FlopMessagable::Text(s.clone()),
            FlopMessagable::_None => FlopMessagable::_None,
        }
    }
}

impl FlopMessagable {
    /// Whether no reply is to be sent.
    pub fn is_none(&self) -> (r: bool)
        ensures
            r == (self@ == ReplyView::Nothing),
    {
        match self {
            FlopMessagable::_None => true,
            _ => false,
        }
    }

    /// The reply that consists of `text`.
    pub fn text(text: String) -> (r: FlopMessagable)
        ensures
            r@ == ReplyView::Text(text@),
    {
        FlopMessagable::Text(text)
    }
}

} // verus!
