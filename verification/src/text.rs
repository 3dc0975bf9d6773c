//! Text primitives over character sequences: words, trimming, splitting.

use vstd::prelude::*;
use vstd::string::*;

verus! {

/// Whether `c` counts as white space: it is one of the twenty-five characters
/// that have that property in Unicode.
pub open spec fn char_is_whitespace(c: char) -> bool {
    let n = c as u32;
    ||| 0x09 <= n <= 0x0d
    ||| n == 0x20
    ||| n == 0x85
    ||| n == 0xa0
    ||| n == 0x1680
    ||| 0x2000 <= n <= 0x200a
    ||| n == 0x2028
    ||| n == 0x2029
    ||| n == 0x202f
    ||| n == 0x205f
    ||| n == 0x3000
}

/// Whether `c` is a letter or a number, as `char::is_alphanumeric` reports it.
pub uninterp spec fn char_is_alphanumeric(c: char) -> bool;

/// The lower-case form of a text, as `str::to_lowercase` produces it.
pub uninterp spec fn lowercase(s: Seq<char>) -> Seq<char>;

/// Whether `c` counts as white space.
pub fn is_whitespace(c: char) -> (r: bool)
    ensures
        r == char_is_whitespace(c),
{
    let n: u32 = c as u32;
    (0x09 <= n && n <= 0x0d) || n == 0x20 || n == 0x85 || n == 0xa0 || n == 0x1680 || (0x2000 <= n
        && n <= 0x200a) || n == 0x2028 || n == 0x2029 || n == 0x202f || n == 0x205f || n == 0x3000
}

/// Calls `char::is_alphanumeric`; the answer is named by [`char_is_alphanumeric`].
#[verifier::external_body]
pub(crate) fn is_alphanumeric(c: char) -> (r: bool)
    ensures
        r == char_is_alphanumeric(c),
{
    c.is_alphanumeric()
}

/// Calls `str::to_lowercase`; the text that comes back is named by [`lowercase`].
#[verifier::external_body]
pub(crate) fn to_lowercase(s: &str) -> (r: String)
    ensures
        r@ == lowercase(s@),
{
    s.to_lowercase()
}

/// Whether two texts hold the same characters.
pub fn str_eq(a: &str, b: &str) -> (r: bool)
    ensures
        r == (a@ == b@),
{
    a.to_owned() == b.to_owned()
}

/// The characters of `s`, in order.
pub fn chars_of(s: &str) -> (r: Vec<char>)
    ensures
        r@ == s@,
{
    let n: usize = s.unicode_len();
    let mut out: Vec<char> = Vec::new();
    let mut i: usize = 0;
    while i < n
        invariant
            n == s@.len(),
            i <= n,
            out@ == s@.take(i as int),
        decreases n - i,
    {
        out.push(s.get_char(i));
        i += 1;
    }
    out
}

/// The first position at or after `i` whose character is not white space.
pub open spec fn ws_end(s: Seq<char>, i: int) -> int
    decreases s.len() - i,
{
    if 0 <= i < s.len() && char_is_whitespace(s[i]) {
        ws_end(s, i + 1)
    } else {
        i
    }
}

/// The first position at or after `i` whose character is white space.
pub open spec fn word_end(s: Seq<char>, i: int) -> int
    decreases s.len() - i,
{
    if 0 <= i < s.len() && !char_is_whitespace(s[i]) {
        word_end(s, i + 1)
    } else {
        i
    }
}

/// The last position at or before `j` that does not follow a white-space character.
pub open spec fn ws_start(s: Seq<char>, j: int) -> int
    decreases j,
{
    if 0 < j <= s.len() && char_is_whitespace(s[j - 1]) {
        ws_start(s, j - 1)
    } else {
        j
    }
}

/// The maximal runs of characters that are not white space, from position `i` on.
pub open spec fn words_from(s: Seq<char>, i: int) -> Seq<Seq<char>>
    decreases s.len() - i,
{
    let a = ws_end(s, i);
    let b = word_end(s, a);
    if 0 <= i <= a < b <= s.len() {
        seq![s.subrange(a, b)].add(words_from(s, b))
    } else {
        Seq::empty()
    }
}

/// The words of a text: its maximal runs of characters that are not white space.
pub open spec fn words(s: Seq<char>) -> Seq<Seq<char>> {
    words_from(s, 0)
}

/// A text without the white space at its two ends.
pub open spec fn trimmed(s: Seq<char>) -> Seq<char> {
    let a = ws_end(s, 0);
    let b = ws_start(s, s.len() as int);
    if a < b {
        s.subrange(a, b)
    } else {
        Seq::empty()
    }
}

/// The first position at or after `i` that holds `c`, or the length where none does.
pub open spec fn find_char(s: Seq<char>, c: char, i: int) -> int
    decreases s.len() - i,
{
    if 0 <= i < s.len() && s[i] != c {
        find_char(s, c, i + 1)
    } else {
        i
    }
}

/// The two parts of `s` around its first `c`, where it holds one.
pub open spec fn split_once_at(s: Seq<char>, c: char) -> Option<(Seq<char>, Seq<char>)> {
    let k = find_char(s, c, 0);
    if 0 <= k < s.len() {
        Some((s.take(k), s.skip(k + 1)))
    } else {
        None
    }
}

/// The two parts of `s` around its first white-space character, where it holds one.
pub open spec fn split_once_ws(s: Seq<char>) -> Option<(Seq<char>, Seq<char>)> {
    let k = word_end(s, 0);
    if 0 <= k < s.len() {
        Some((s.take(k), s.skip(k + 1)))
    } else {
        None
    }
}

/// `s` with every leading repetition of a non-empty `p` taken away.
pub open spec fn strip_repeated(s: Seq<char>, p: Seq<char>) -> Seq<char>
    decreases s.len(),
{
    if p.len() > 0 && p.is_prefix_of(s) {
        strip_repeated(s.skip(p.len() as int), p)
    } else {
        s
    }
}

/// The text between two character positions of `s`.
pub fn substring(s: &str, from: usize, to: usize) -> (r: String)
    requires
        from <= to <= s@.len(),
    ensures
        r@ == s@.subrange(from as int, to as int),
{
    s.substring_char(from, to).to_owned()
}

/// Position of the first character at or after `i` that is not white space.
fn scan_ws(cs: &Vec<char>, i: usize) -> (a: usize)
    requires
        i <= cs@.len(),
    ensures
        a == ws_end(cs@, i as int),
        i <= a <= cs@.len(),
{
    let mut a: usize = i;
    while a < cs.len() && is_whitespace(cs[a])
        invariant
            i <= a <= cs@.len(),
            ws_end(cs@, i as int) == ws_end(cs@, a as int),
        decreases cs@.len() - a,
    {
        a += 1;
    }
    a
}

/// Position of the first white-space character at or after `i`.
fn scan_word(cs: &Vec<char>, i: usize) -> (b: usize)
    requires
        i <= cs@.len(),
    ensures
        b == word_end(cs@, i as int),
        i <= b <= cs@.len(),
{
    let mut b: usize = i;
    while b < cs.len() && !is_whitespace(cs[b])
        invariant
            i <= b <= cs@.len(),
            word_end(cs@, i as int) == word_end(cs@, b as int),
        decreases cs@.len() - b,
    {
        b += 1;
    }
    b
}

/// The views of a list of texts.
pub open spec fn views(v: Seq<String>) -> Seq<Seq<char>> {
    Seq::new(v.len(), |i: int| v[i]@)
}

/// Splits a text into its words, as `str::split_whitespace` walks them.
pub fn split_whitespace(s: &str) -> (r: Vec<String>)
    ensures
        views(r@) == words(s@),
{
    let cs = chars_of(s);
    let n: usize = cs.len();
    let mut out: Vec<String> = Vec::new();
    let mut i: usize = 0;
    let mut done: bool = false;
    while !done
        invariant
            cs@ == s@,
            n == cs@.len(),
            i <= n,
            words(s@) == views(out@).add(if done { Seq::empty() } else { words_from(s@, i as int) }),
        decreases (if done { 0int } else { 1int }), n - i,
    {
        let a = scan_ws(&cs, i);
        let b = scan_word(&cs, a);
        if a < b {
            let w = substring(s, a, b);
            proof {
                let prev = views(out@);
                let next = views(out@.push(w));
                assert(next == prev.push(w@));
                assert(prev.add(seq![w@].add(words_from(s@, b as int))) == next.add(
                    words_from(s@, b as int),
                ));
            }
            out.push(w);
            i = b;
        } else {
            done = true;
        }
    }
    proof {
        assert(views(out@).add(Seq::empty()) == views(out@));
    }
    out
}

/// A text without the white space at its ends, as `str::trim` returns it.
pub fn trim(s: &str) -> (r: String)
    ensures
        r@ == trimmed(s@),
{
    let cs = chars_of(s);
    let a = scan_ws(&cs, 0);
    let mut b: usize = cs.len();
    while b > 0 && is_whitespace(cs[b - 1])
        invariant
            b <= cs@.len(),
            ws_start(cs@, cs@.len() as int) == ws_start(cs@, b as int),
        decreases b,
    {
        b -= 1;
    }
    if a < b {
        substring(s, a, b)
    } else {
        String::new()
    }
}

/// Splits a text at its first `c`, as `str::split_once` does.
pub fn split_once(s: &str, c: char) -> (r: Option<(String, String)>)
    ensures
        match r {
            Some((a, b)) => split_once_at(s@, c) == Some((a@, b@)),
            None => split_once_at(s@, c) is None,
        },
{
    let cs = chars_of(s);
    let mut k: usize = 0;
    while k < cs.len() && cs[k] != c
        invariant
            k <= cs@.len(),
            find_char(cs@, c, 0) == find_char(cs@, c, k as int),
        decreases cs@.len() - k,
    {
        k += 1;
    }
    if k < cs.len() {
        Some((substring(s, 0, k), substring(s, k + 1, cs.len())))
    } else {
        None
    }
}

/// Splits a text at its first white-space character.
pub fn split_once_whitespace(s: &str) -> (r: Option<(String, String)>)
    ensures
        match r {
            Some((a, b)) => split_once_ws(s@) == Some((a@, b@)),
            None => split_once_ws(s@) is None,
        },
{
    let cs = chars_of(s);
    let k = scan_word(&cs, 0);
    if k < cs.len() {
        Some((substring(s, 0, k), substring(s, k + 1, cs.len())))
    } else {
        None
    }
}

/// Whether `s` begins with `p`.
pub fn starts_with(s: &str, p: &str) -> (r: bool)
    ensures
        r == p@.is_prefix_of(s@),
{
    let cs = chars_of(s);
    let ps = chars_of(p);
    if ps.len() > cs.len() {
        return false;
    }
    let mut i: usize = 0;
    while i < ps.len()
        invariant
            cs@ == s@,
            ps@ == p@,
            ps@.len() <= cs@.len(),
            i <= ps@.len(),
            forall|k: int| 0 <= k < i ==> cs@[k] == ps@[k],
        decreases ps@.len() - i,
    {
        if cs[i] != ps[i] {
            proof {
                assert(s@.subrange(0, p@.len() as int)[i as int] != p@[i as int]);
            }
            return false;
        }
        i += 1;
    }
    proof {
        assert(p@ =~= s@.subrange(0, p@.len() as int));
    }
    true
}

/// Takes every leading repetition of `p` off `s`, as `str::trim_start_matches` does.
pub fn trim_start_matches(s: &str, p: &str) -> (r: String)
    ensures
        r@ == strip_repeated(s@, p@),
{
    let m: usize = p.unicode_len();
    let mut rest: String = s.to_owned();
    if m == 0 {
        return rest;
    }
    while starts_with(rest.as_str(), p)
        invariant
            m == p@.len(),
            m > 0,
            strip_repeated(s@, p@) == strip_repeated(rest@, p@),
        decreases rest@.len(),
    {
        let len: usize = rest.as_str().unicode_len();
        rest = substring(rest.as_str(), m, len);
    }
    rest
}

/// `s` without the run of `c` at its end.
pub open spec fn strip_trailing(s: Seq<char>, c: char) -> Seq<char>
    decreases s.len(),
{
    if s.len() > 0 && s.last() == c {
        strip_trailing(s.drop_last(), c)
    } else {
        s
    }
}

/// Takes every trailing `c` off `s`, as `str::trim_end_matches` does for one character.
pub fn trim_end_matches(s: &str, c: char) -> (r: String)
    ensures
        r@ == strip_trailing(s@, c),
{
    let cs = chars_of(s);
    let mut b: usize = cs.len();
    proof {
        assert(s@.take(b as int) =~= s@);
    }
    while b > 0 && cs[b - 1] == c
        invariant
            cs@ == s@,
            b <= cs@.len(),
            strip_trailing(s@, c) == strip_trailing(s@.take(b as int), c),
        decreases b,
    {
        proof {
            assert(s@.take(b as int).drop_last() =~= s@.take(b - 1));
        }
        b -= 1;
    }
    proof {
        assert(s@.take(b as int) =~= s@.subrange(0, b as int));
    }
    substring(s, 0, b)
}

/// Three texts in a row.
pub fn join3(a: &str, b: &str, c: &str) -> (r: String)
    ensures
        r@ == a@ + b@ + c@,
{
    let mut out = a.to_owned();
    out.append(b);
    out.append(c);
    out
}

/// Five texts in a row.
pub fn join5(a: &str, b: &str, c: &str, d: &str, e: &str) -> (r: String)
    ensures
        r@ == a@ + b@ + c@ + d@ + e@,
{
    let mut out = a.to_owned();
    out.append(b);
    out.append(c);
    out.append(d);
    out.append(e);
    out
}

/// The parts of a text between its occurrences of `c`, from position `i` on;
/// one more than there are occurrences.
pub open spec fn parts_from(s: Seq<char>, c: char, i: int) -> Seq<Seq<char>>
    decreases s.len() - i,
{
    let k = find_char(s, c, i);
    if 0 <= i <= k < s.len() {
        seq![s.subrange(i, k)].add(parts_from(s, c, k + 1))
    } else {
        seq![s.subrange(i, s.len() as int)]
    }
}

/// The parts of a text between its occurrences of `c`.
pub open spec fn parts(s: Seq<char>, c: char) -> Seq<Seq<char>> {
    parts_from(s, c, 0)
}

/// A text with a space in place of each white-space character.
pub open spec fn spaced(s: Seq<char>) -> Seq<char> {
    Seq::new(
        s.len(),
        |i: int|
            if char_is_whitespace(s[i]) {
                ' '
            } else {
                s[i]
            },
    )
}

/// Whether one of the parts of a text between its white-space characters, from
/// position `i` on, is the text `part`.
pub open spec fn has_piece_from(s: Seq<char>, part: Seq<char>, i: int) -> bool
    decreases s.len() - i,
{
    let k = word_end(s, i);
    if 0 <= i <= k < s.len() {
        s.subrange(i, k) == part || has_piece_from(s, part, k + 1)
    } else {
        s.subrange(i, s.len() as int) == part
    }
}

/// Whether one of the parts of a text between its white-space characters is
/// the text `part`.
pub open spec fn has_piece(s: Seq<char>, part: Seq<char>) -> bool {
    has_piece_from(s, part, 0)
}

/// Splits a text at each `c`, as `str::split` does for one character.
pub fn split_char(s: &str, c: char) -> (r: Vec<String>)
    ensures
        views(r@) == parts(s@, c),
{
    let cs = chars_of(s);
    let n: usize = cs.len();
    let mut out: Vec<String> = Vec::new();
    let mut i: usize = 0;
    assert(views(out@) =~= Seq::<Seq<char>>::empty());
    loop
        invariant
            cs@ == s@,
            n == cs@.len(),
            i <= n,
            parts(s@, c) == views(out@).add(parts_from(s@, c, i as int)),
        decreases n - i,
    {
        let mut k: usize = i;
        while k < n && cs[k] != c
            invariant
                cs@ == s@,
                n == cs@.len(),
                i <= k <= n,
                find_char(s@, c, i as int) == find_char(s@, c, k as int),
            decreases n - k,
        {
            k += 1;
        }
        let ghost before = views(out@);
        if k < n {
            let part = substring(s, i, k);
            out.push(part);
            assert(views(out@) =~= before.push(s@.subrange(i as int, k as int)));
            assert(before.add(seq![s@.subrange(i as int, k as int)].add(parts_from(s@, c, k + 1)))
                =~= views(out@).add(parts_from(s@, c, k + 1)));
            i = k + 1;
        } else {
            let part = substring(s, i, n);
            out.push(part);
            assert(views(out@) =~= before.push(s@.subrange(i as int, n as int)));
            assert(views(out@) =~= before.add(seq![s@.subrange(i as int, n as int)]));
            return out;
        }
    }
}

/// Writes a space in place of each white-space character.
pub fn space_out(s: &str) -> (r: String)
    ensures
        r@ == spaced(s@),
{
    let cs = chars_of(s);
    let mut out = String::new();
    let mut i: usize = 0;
    proof {
        reveal_strlit(" ");
    }
    while i < cs.len()
        invariant
            cs@ == s@,
            i <= cs@.len(),
            " "@ == seq![' '],
            out@ == spaced(s@).take(i as int),
        decreases cs@.len() - i,
    {
        if is_whitespace(cs[i]) {
            out.append(" ");
        } else {
            out.append(substring(s, i, i + 1).as_str());
        }
        assert(out@ =~= spaced(s@).take(i + 1));
        i += 1;
    }
    assert(out@ =~= spaced(s@));
    out
}

/// Whether one of the parts of a text between its white-space characters is
/// the text `part`.
pub fn some_piece_is(s: &str, part: &str) -> (r: bool)
    ensures
        r == has_piece(s@, part@),
{
    let cs = chars_of(s);
    let n: usize = cs.len();
    let mut i: usize = 0;
    loop
        invariant
            cs@ == s@,
            n == cs@.len(),
            i <= n,
            has_piece(s@, part@) == has_piece_from(s@, part@, i as int),
        decreases n - i,
    {
        let k = scan_word(&cs, i);
        if str_eq(substring(s, i, k).as_str(), part) {
            return true;
        }
        if k < n {
            i = k + 1;
        } else {
            return false;
        }
    }
}

/// Whether a text is a word: it is not empty and holds no white space.
pub open spec fn is_word(w: Seq<char>) -> bool {
    &&& w.len() > 0
    &&& forall|j: int| 0 <= j < w.len() ==> !char_is_whitespace(#[trigger] w[j])
}

/// Words in a row, one space between them.
pub open spec fn joined(parts: Seq<Seq<char>>) -> Seq<char>
    decreases parts.len(),
{
    if parts.len() == 0 {
        Seq::empty()
    } else if parts.len() == 1 {
        parts[0]
    } else {
        joined(parts.drop_last()) + " "@ + parts.last()
    }
}

proof fn lemma_ws_end_reaches(s: Seq<char>, i: int)
    requires
        0 <= i <= s.len(),
    ensures
        i <= ws_end(s, i) <= s.len(),
        ws_end(s, i) < s.len() ==> !char_is_whitespace(s[ws_end(s, i)]),
    decreases s.len() - i,
{
    if i < s.len() && char_is_whitespace(s[i]) {
        lemma_ws_end_reaches(s, i + 1);
    }
}

proof fn lemma_word_end_reaches(s: Seq<char>, i: int)
    requires
        0 <= i <= s.len(),
    ensures
        i <= word_end(s, i) <= s.len(),
        forall|k: int| i <= k < word_end(s, i) ==> !char_is_whitespace(#[trigger] s[k]),
    decreases s.len() - i,
{
    if i < s.len() && !char_is_whitespace(s[i]) {
        lemma_word_end_reaches(s, i + 1);
    }
}

/// Each of the words of a text is a word: not empty, and without white space.
pub proof fn lemma_words_are_words(s: Seq<char>, i: int)
    requires
        0 <= i <= s.len(),
    ensures
        forall|k: int| 0 <= k < words_from(s, i).len() ==> is_word(#[trigger] words_from(s, i)[k]),
    decreases s.len() - i,
{
    let a = ws_end(s, i);
    lemma_ws_end_reaches(s, i);
    lemma_word_end_reaches(s, a);
    let b = word_end(s, a);
    if a < b {
        lemma_words_are_words(s, b);
        let first = s.subrange(a, b);
        assert(is_word(first)) by {
            assert forall|j: int| 0 <= j < first.len() implies !char_is_whitespace(
                #[trigger] first[j],
            ) by {
                assert(first[j] == s[a + j]);
            }
        }
        assert forall|k: int| 0 <= k < words_from(s, i).len() implies is_word(
            #[trigger] words_from(s, i)[k],
        ) by {
            if k > 0 {
                assert(words_from(s, i)[k] == words_from(s, b)[k - 1]);
            }
        }
    }
}

/// A text that neither begins nor ends with white space is left as it is when
/// it is trimmed.
pub proof fn lemma_trimmed_unchanged(s: Seq<char>)
    requires
        s.len() > 0,
        !char_is_whitespace(s[0]),
        !char_is_whitespace(s.last()),
    ensures
        trimmed(s) == s,
{
    assert(s.subrange(0, s.len() as int) =~= s);
}

/// Words in a row form a text that neither begins nor ends with white space.
pub proof fn lemma_joined_ends(parts: Seq<Seq<char>>)
    requires
        parts.len() > 0,
        forall|k: int| 0 <= k < parts.len() ==> is_word(#[trigger] parts[k]),
    ensures
        joined(parts).len() > 0,
        !char_is_whitespace(joined(parts)[0]),
        !char_is_whitespace(joined(parts).last()),
    decreases parts.len(),
{
    if parts.len() > 1 {
        let front = parts.drop_last();
        assert forall|k: int| 0 <= k < front.len() implies is_word(#[trigger] front[k]) by {
            assert(front[k] == parts[k]);
        }
        lemma_joined_ends(front);
        assert(is_word(parts.last()));
        let all = joined(front) + " "@ + parts.last();
        assert(all[0] == joined(front)[0]);
        assert(all.last() == parts.last().last());
    } else {
        assert(is_word(parts[0]));
    }
}

} // verus!
