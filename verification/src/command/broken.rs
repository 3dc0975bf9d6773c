//! Stands in for a stored command whose type tag names no known kind.

use vstd::prelude::*;
use crate::config::Cli;
use vstd::string::*;
use crate::command::ConstructError;
use crate::message::{FlopMessagable, ReplyView};

verus! {

/// Shown by a command whose type tag names no known kind.
pub const ERROR_MSG: &'static str = "⚠️**ERROR**⚠️ Broken Command";

/// A command that only tells that it is broken. Nothing is stored for it, so
/// that what the store holds under the unknown tag stays as it is.
#[derive(Debug, Clone, Copy, PartialEq, Eq, Structural)]
pub struct BrokenCommand;

impl BrokenCommand {
    /// Builds the command; the settings and the stored bytes are left unread.
    pub fn construct(_cli: &Cli, _data: &[u8]) -> (r: Result<BrokenCommand, ConstructError>)
        ensures
            r == Ok::<BrokenCommand, ConstructError>(BrokenCommand),
    {
        Ok(BrokenCommand)
    }

    /// The answer of the command: that it is broken.
    pub fn execute(&mut self) -> (r: FlopMessagable)
        ensures
            r@ == ReplyView::Text(ERROR_MSG@),
    {
        FlopMessagable::Text(ERROR_MSG.to_owned())
    }

    /// Nothing is stored for this command.
    pub fn save(&self) -> (r: Option<Vec<u8>>)
        ensures
            r is None,
    {
        None
    }
}

} // verus!
