//! The commands of the first generation of the program: fixed answers.

use vstd::prelude::*;
use vstd::string::*;
use crate::reaction::{contains, occurs};
use crate::text::{
    char_is_whitespace, chars_of, find_char, is_whitespace, lowercase, substring, to_lowercase,
};

verus! {

/// The answer of a command that has none to choose from.
pub const NO_CONTENT: &'static str = "⚠️ This command has no responses";

/// The answer of the command that sleeps.
pub const SLEPT: &'static str = "Epic sleep";

/// A command that answers with one of its responses.
#[derive(Debug)]
pub struct TextCmd {
    responses: Vec<String>,
}

/// The views of a list of responses.
pub open spec fn response_views(v: Seq<String>) -> Seq<Seq<char>> {
    Seq::new(v.len(), |i: int| v[i]@)
}

/// The answer for a draw: the response at the place that the draw falls on,
/// counting round the list; a fixed answer where the list is empty.
pub open spec fn drawn(responses: Seq<Seq<char>>, draw: usize) -> Seq<char> {
    if responses.len() == 0 {
        NO_CONTENT@
    } else {
        responses[draw as int % responses.len() as int]
    }
}

impl TextCmd {
    /// The responses of the command, in order.
    pub closed spec fn responses(&self) -> Seq<Seq<char>> {
        response_views(self.responses@)
    }

    /// The command that answers with one of `responses`.
    pub fn new(responses: Vec<String>) -> (r: TextCmd)
        ensures
            r.responses() == response_views(responses@),
    {
        TextCmd { responses }
    }

    /// The answer for a number drawn by chance.
    pub fn reply(&self, draw: usize) -> (r: String)
        ensures
            r@ == drawn(self.responses(), draw),
    {
        if self.responses.len() == 0 {
            NO_CONTENT.to_owned()
        } else {
            self.responses[draw % self.responses.len()].clone()
        }
    }
}

/// A command that waits a moment before it answers.
#[derive(Debug, Clone, Copy, PartialEq, Eq, Structural)]
pub struct SleepCmd;

impl SleepCmd {
    /// How long the command waits, in seconds.
    pub fn delay(&self) -> (r: u64)
        ensures
            r == 1,
    {
        1
    }

    /// The answer of the command.
    pub fn reply(&self) -> (r: String)
        ensures
            r@ == SLEPT@,
    {
        SLEPT.to_owned()
    }
}

/// The name of the command that a message calls: its text up to the first
/// space, without the prefix, in lower case. A message that does not begin
/// with the prefix calls none.
pub open spec fn called(content: Seq<char>, prefix: char) -> Option<Seq<char>> {
    if content.len() > 0 && content[0] == prefix {
        Some(lowercase(content.subrange(1, vstd::math::max(1, find_char(content, ' ', 0)))))
    } else {
        None
    }
}

/// Reads the name of the command that a message calls.
pub fn called_name(content: &str, prefix: char) -> (r: Option<String>)
    ensures
        match r {
            Some(name) => called(content@, prefix) == Some(name@),
            None => called(content@, prefix) is None,
        },
{
    let cs = chars_of(content);
    if cs.len() == 0 || cs[0] != prefix {
        return None;
    }
    let mut k: usize = 0;
    while k < cs.len() && cs[k] != ' '
        invariant
            cs@ == content@,
            k <= cs@.len(),
            find_char(content@, ' ', 0) == find_char(content@, ' ', k as int),
        decreases cs@.len() - k,
    {
        k += 1;
    }
    let end: usize = if k < 1 {
        1
    } else {
        k
    };
    Some(to_lowercase(substring(content, 1, end).as_str()))
}

/// A text without each character that repeats the one before it, and then
/// without its white space. `last` is the character before the text, if there
/// is one.
pub open spec fn thinned(s: Seq<char>, last: Option<char>) -> Seq<char>
    decreases s.len(),
{
    if s.len() == 0 {
        Seq::empty()
    } else if last == Some(s[0]) {
        thinned(s.drop_first(), last)
    } else if char_is_whitespace(s[0]) {
        thinned(s.drop_first(), Some(s[0]))
    } else {
        seq![s[0]] + thinned(s.drop_first(), Some(s[0]))
    }
}

/// Whether a message holds the phrase once its repeated characters and its
/// white space are taken out.
pub fn hears(content: &str, phrase: &str) -> (r: bool)
    ensures
        r == occurs(thinned(content@, None), phrase@),
{
    let cs = chars_of(content);
    let mut out = String::new();
    let mut last: Option<char> = None;
    let mut i: usize = 0;
    assert(content@.skip(0) =~= content@);
    while i < cs.len()
        invariant
            cs@ == content@,
            i <= cs@.len(),
            thinned(content@, None) == out@ + thinned(content@.skip(i as int), last),
        decreases cs@.len() - i,
    {
        let c = cs[i];
        proof {
            assert(content@.skip(i as int).drop_first() =~= content@.skip(i + 1));
            assert(content@.skip(i as int)[0] == c);
        }
        let repeated = match last {
            Some(l) => l == c,
            None => false,
        };
        if !repeated {
            if !is_whitespace(c) {
                let ghost before = out@;
                out.append(substring(content, i, i + 1).as_str());
                assert(content@.subrange(i as int, i + 1) =~= seq![c]);
                assert(before + (seq![c] + thinned(content@.skip(i + 1), Some(c))) =~= out@
                    + thinned(content@.skip(i + 1), Some(c)));
            }
            last = Some(c);
        }
        i += 1;
    }
    assert(out@ + Seq::<char>::empty() =~= out@);
    contains(out.as_str(), phrase)
}

} // verus!
