//! Looks a term up in an encyclopedia.

use vstd::prelude::*;
use crate::config::Cli;
use vstd::string::*;
use crate::command::{CmdCtx, ConstructError, CtxView};
use crate::message::{FlopMessagable, Message, ReplyView};
use crate::text::{
    char_is_whitespace, chars_of, is_whitespace, join3, strip_repeated, substring, trim,
    trim_start_matches, trimmed,
};

verus! {

/// Looks a term up in an encyclopedia.
#[derive(Debug, Clone, Copy, PartialEq, Eq, Structural)]
pub struct WikiCommand;

/// Where a search is sent; the search words follow.
pub const ENDPOINT: &'static str =
    "https://en.wikipedia.org/w/api.php?action=query&format=json&list=search&srsearch=";

/// Where a page is found; its title follows.
pub const WIKI_PAGE: &'static str = "https://en.wikipedia.org/wiki/";

/// The answer where the search finds no page.
pub const NO_PAGE_MSG: &'static str = "Could not find page.";

/// The answer where the call names nothing to search for.
pub const NO_ARGUMENT: &'static str = "Missing argument for wiki lookup";

/// A text with `+` in place of each white-space character.
pub open spec fn plus_joined(s: Seq<char>) -> Seq<char> {
    Seq::new(
        s.len(),
        |i: int|
            if char_is_whitespace(s[i]) {
                '+'
            } else {
                s[i]
            },
    )
}

/// The words that a call asks to search for, joined by `+`.
pub open spec fn search_words(content: Seq<char>, ctx: CtxView) -> Seq<char> {
    plus_joined(trimmed(strip_repeated(content, ctx.command)))
}

/// Writes `+` in place of each white-space character.
pub fn plus_join(s: &str) -> (r: String)
    ensures
        r@ == plus_joined(s@),
{
    let cs = chars_of(s);
    let mut out = String::new();
    let mut i: usize = 0;
    proof {
        reveal_strlit("+");
    }
    while i < cs.len()
        invariant
            cs@ == s@,
            i <= cs@.len(),
            "+"@ == seq!['+'],
            out@ == plus_joined(s@).take(i as int),
        decreases cs@.len() - i,
    {
        if is_whitespace(cs[i]) {
            out.append("+");
        } else {
            out.append(substring(s, i, i + 1).as_str());
        }
        assert(out@ =~= plus_joined(s@).take(i + 1));
        i += 1;
    }
    assert(out@ =~= plus_joined(s@));
    out
}

impl WikiCommand {
    /// Builds the command; it keeps neither the settings nor stored data.
    pub fn construct(_cli: &Cli, _data: &[u8]) -> (r: Result<WikiCommand, ConstructError>)
        ensures
            r == Ok::<WikiCommand, ConstructError>(WikiCommand),
    {
        Ok(WikiCommand)
    }

    /// Nothing is stored for this command.
    pub fn save(&self) -> (r: Option<Vec<u8>>)
        ensures
            r is None,
    {
        None
    }

    /// The address to ask for the search of the call; the answer to give
    /// instead where the call names nothing to search for.
    pub fn request(msg: &Message, ctx: &CmdCtx) -> (r: Result<String, FlopMessagable>)
        ensures
            match r {
                Ok(url) => search_words(msg.content@, ctx@).len() > 0 && url@ == ENDPOINT@
                    + search_words(msg.content@, ctx@),
                Err(reply) => search_words(msg.content@, ctx@).len() == 0 && reply@
                    == ReplyView::Text(NO_ARGUMENT@),
            },
    {
        let rest = trim_start_matches(msg.content.as_str(), ctx.command);
        let args = plus_join(trim(rest.as_str()).as_str());
        if args.as_str().unicode_len() == 0 {
            return Err(FlopMessagable::Text(NO_ARGUMENT.to_owned()));
        }
        let mut url = ENDPOINT.to_owned();
        url.append(args.as_str());
        Ok(url)
    }

    /// The answer for the title of the first page that the search found, or for
    /// a search that found none.
    pub fn reply(title: Option<&str>) -> (r: FlopMessagable)
        ensures
            r@ == ReplyView::Text(
                match title {
                    Some(t) => WIKI_PAGE@ + t@,
                    None => NO_PAGE_MSG@,
                },
            ),
    {
        match title {
            Some(t) => {
                let mut page = WIKI_PAGE.to_owned();
                page.append(t);
                FlopMessagable::Text(page)
            },
            None => FlopMessagable::Text(NO_PAGE_MSG.to_owned()),
        }
    }

    /// The answer for a response that could not be read; `error` says why.
    pub fn unreadable(error: &str) -> (r: FlopMessagable)
        ensures
            r@ == ReplyView::Text(
                "Failed to decode response from Wikipedia:\n```"@ + error@ + "```"@,
            ),
    {
        FlopMessagable::Text(join3("Failed to decode response from Wikipedia:\n```", error, "```"))
    }
}

} // verus!
