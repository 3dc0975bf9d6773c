//! Tells which version is running.

use vstd::prelude::*;
use crate::config::Cli;
use vstd::string::*;
use crate::command::ConstructError;
use crate::message::{FlopMessagable, ReplyView};

verus! {

/// Tells which version is running.
#[derive(Debug, Clone, Copy, PartialEq, Eq, Structural)]
pub struct VersionCommand;

/// The name under which the answer speaks where none is known.
pub const FALLBACK_NAME: &'static str = "Issue Flop";

/// The sentence about the running version; it names the commit where one is
/// known.
pub open spec fn version_text(name: Seq<char>, version: Seq<char>, commit: Seq<char>) -> Seq<
    char,
> {
    if commit.len() == 0 {
        name + " is running on version `"@ + version + "`"@
    } else {
        name + " is running on version `"@ + version + "`, commit `"@ + commit + "`"@
    }
}

impl VersionCommand {
    /// Builds the command; it keeps neither the settings nor stored data.
    pub fn construct(_cli: &Cli, _data: &[u8]) -> (r: Result<VersionCommand, ConstructError>)
        ensures
            r == Ok::<VersionCommand, ConstructError>(VersionCommand),
    {
        Ok(VersionCommand)
    }

    /// Nothing is stored for this command.
    pub fn save(&self) -> (r: Option<Vec<u8>>)
        ensures
            r is None,
    {
        None
    }

    /// The answer, given the name to speak under, if one is known, the version
    /// and the commit it was built from, which may be empty.
    pub fn reply(name: Option<&str>, version: &str, commit: &str) -> (r: FlopMessagable)
        ensures
            r@ == ReplyView::Text(
                version_text(
                    match name {
                        Some(n) => n@,
                        None => FALLBACK_NAME@,
                    },
                    version@,
                    commit@,
                ),
            ),
    {
        let speaker = match name {
            Some(n) => n,
            None => FALLBACK_NAME,
        };
        let mut text = speaker.to_owned();
        text.append(" is running on version `");
        text.append(version);
        if commit.is_empty() {
            text.append("`");
        } else {
            text.append("`, commit `");
            text.append(commit);
            text.append("`");
        }
        FlopMessagable::Text(text)
    }
}

} // verus!
