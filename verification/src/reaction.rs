//! When a message is reacted to: it holds the phrase, however it is spaced out
//! or drawn out.

use vstd::prelude::*;
use vstd::string::*;
use crate::text::{char_is_whitespace, chars_of, is_whitespace, substring};

verus! {

/// A text without its white space and with each run of one character drawn
/// together into a single one. `last` is the character before the text, if
/// there is one that counts.
pub open spec fn squeezed(s: Seq<char>, last: Option<char>) -> Seq<char>
    decreases s.len(),
{
    if s.len() == 0 {
        Seq::empty()
    } else if char_is_whitespace(s[0]) || last == Some(s[0]) {
        squeezed(s.drop_first(), last)
    } else {
        seq![s[0]] + squeezed(s.drop_first(), Some(s[0]))
    }
}

/// The form in which texts are compared: without white space, runs drawn
/// together.
pub open spec fn reaction_form(s: Seq<char>) -> Seq<char> {
    squeezed(s, None)
}

/// Whether `needle` stands somewhere in `hay`.
pub open spec fn occurs(hay: Seq<char>, needle: Seq<char>) -> bool {
    exists|k: int|
        0 <= k <= hay.len() - needle.len() && #[trigger] hay.subrange(k, k + needle.len())
            == needle
}

/// Takes out white space and draws runs of one character together.
pub fn fomat_reaction_string(text: &str) -> (r: String)
    ensures
        r@ == reaction_form(text@),
{
    let cs = chars_of(text);
    let mut out = String::new();
    let mut last: Option<char> = None;
    let mut i: usize = 0;
    assert(text@.skip(0) =~= text@);
    while i < cs.len()
        invariant
            cs@ == text@,
            i <= cs@.len(),
            reaction_form(text@) == out@ + squeezed(text@.skip(i as int), last),
        decreases cs@.len() - i,
    {
        let c = cs[i];
        proof {
            assert(text@.skip(i as int).drop_first() =~= text@.skip(i + 1));
            assert(text@.skip(i as int)[0] == c);
        }
        let repeated = match last {
            Some(l) => l == c,
            None => false,
        };
        if !(is_whitespace(c) || repeated) {
            let ghost before = out@;
            out.append(substring(text, i, i + 1).as_str());
            assert(text@.subrange(i as int, i + 1) =~= seq![c]);
            assert(before + (seq![c] + squeezed(text@.skip(i + 1), Some(c))) =~= out@ + squeezed(
                text@.skip(i + 1),
                Some(c),
            ));
            last = Some(c);
        }
        i += 1;
    }
    assert(out@ + Seq::<char>::empty() =~= out@);
    out
}

fn matches_at(hay: &Vec<char>, needle: &Vec<char>, k: usize) -> (r: bool)
    requires
        k + needle@.len() <= hay@.len(),
    ensures
        r == (hay@.subrange(k as int, k + needle@.len()) == needle@),
{
    let mut j: usize = 0;
    let size: usize = hay.len();
    while j < needle.len()
        invariant
            size == hay@.len(),
            k + needle@.len() <= hay@.len(),
            j <= needle@.len(),
            forall|t: int| 0 <= t < j ==> hay@[k + t] == needle@[t],
        decreases needle@.len() - j,
    {
        if hay[k + j] != needle[j] {
            assert(hay@.subrange(k as int, k + needle@.len())[j as int] != needle@[j as int]);
            return false;
        }
        j += 1;
    }
    assert(hay@.subrange(k as int, k + needle@.len()) =~= needle@);
    true
}

/// Whether `needle` stands somewhere in `hay`, as `str::contains` tells.
pub fn contains(hay: &str, needle: &str) -> (r: bool)
    ensures
        r == occurs(hay@, needle@),
{
    let h = chars_of(hay);
    let n = chars_of(needle);
    if n.len() > h.len() {
        return false;
    }
    let last: usize = h.len() - n.len();
    let mut k: usize = 0;
    loop
        invariant
            h@ == hay@,
            n@ == needle@,
            n@.len() <= h@.len(),
            last == h@.len() - n@.len(),
            k <= last,
            forall|t: int| 0 <= t < k ==> #[trigger] hay@.subrange(t, t + needle@.len()) != needle@,
        decreases last - k,
    {
        if matches_at(&h, &n, k) {
            return true;
        }
        if k == last {
            return false;
        }
        k += 1;
    }
}

/// Whether a message is reacted to: its text holds the phrase, both taken in
/// the form in which texts are compared.
pub fn reacts(content: &str, phrase: &str) -> (r: bool)
    ensures
        r == occurs(reaction_form(content@), reaction_form(phrase@)),
{
    let text = fomat_reaction_string(content);
    let wanted = fomat_reaction_string(phrase);
    contains(text.as_str(), wanted.as_str())
}

} // verus!
