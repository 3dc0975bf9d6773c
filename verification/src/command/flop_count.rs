//! Tells how many reactions were given since the last reset.

use vstd::prelude::*;
use crate::config::Cli;
use vstd::string::*;
use crate::command::ConstructError;
use crate::message::{FlopMessagable, ReplyView};
use crate::number::{i64_to_string, signed_decimal};

verus! {

/// Tells how many reactions were given since the last reset.
#[derive(Debug, Clone, Copy, PartialEq, Eq, Structural)]
pub struct FlopCountCommand;

impl FlopCountCommand {
    /// Builds the command; it keeps neither the settings nor stored data.
    pub fn construct(_cli: &Cli, _data: &[u8]) -> (r: Result<FlopCountCommand, ConstructError>)
        ensures
            r == Ok::<FlopCountCommand, ConstructError>(FlopCountCommand),
    {
        Ok(FlopCountCommand)
    }

    /// Nothing is stored for this command.
    pub fn save(&self) -> (r: Option<Vec<u8>>)
        ensures
            r is None,
    {
        None
    }

    /// The answer for a count of reactions.
    pub fn reply(count: i32) -> (r: FlopMessagable)
        ensures
            r@ == ReplyView::Text(
                signed_decimal(count as int) + " flops reacted to since last reset"@,
            ),
    {
        let mut text = i64_to_string(count as i64);
        text.append(" flops reacted to since last reset");
        FlopMessagable::Text(text)
    }
}

} // verus!
