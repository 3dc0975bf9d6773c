//! Resolution of an invocation: the walk from what a user typed to the command
//! it stands for, through subregistries, links and parent registries.

use vstd::prelude::*;
use crate::dirty::key_views;
use crate::entries::{EntryView, Key};
use crate::node::NodeView;
use crate::registries::RegistryView;
use crate::text::{
    char_is_whitespace, is_word, joined, lemma_joined_ends, lemma_trimmed_unchanged,
    lemma_words_are_words, lowercase, trimmed, words,
};

verus! {

/// How many lookups one resolution may make.
pub const COMMAND_SEARCH_DEPTH_LIMIT: usize = 64;

/// How a resolution ended.
#[derive(Debug, PartialEq, Eq, Clone, Copy, Structural)]
pub enum CanonicalisedStatus {
    /// The lookups were used up before the walk ended.
    Overflow,
    /// A command was found.
    Success,
    /// No command of that name was found.
    NotFound,
    /// The walk came to a place where it had been before.
    Recursive,
    /// A subregistry was named and no command inside it.
    FailedSubcommand,
}

impl Default for CanonicalisedStatus {
    fn default() -> (r: Self)
        ensures
            r == CanonicalisedStatus::NotFound,
    {
        CanonicalisedStatus::NotFound
    }
}

/// What a resolution found.
#[derive(Debug)]
pub struct CanonicalsedResult {
    /// Every pair of registry and name that was looked up, in order.
    pub stack: Vec<(String, String)>,
    /// The part of the invocation that names the command.
    pub call: String,
    /// How the walk ended.
    pub status: CanonicalisedStatus,
}

/// The result of a resolution as a mathematical value.
pub struct Resolution {
    pub stack: Seq<Key>,
    pub call: Seq<char>,
    pub status: CanonicalisedStatus,
}

impl View for CanonicalsedResult {
    type V = Resolution;

    open spec fn view(&self) -> Resolution {
        Resolution { stack: key_views(self.stack@), call: self.call@, status: self.status }
    }
}

impl Default for CanonicalsedResult {
    fn default() -> (r: Self)
        ensures
            r@ == unresolved(),
    {
        let r = CanonicalsedResult {
            stack: Vec::new(),
            call: String::new(),
            status: CanonicalisedStatus::NotFound,
        };
        assert(key_views(r.stack@) =~= Seq::empty());
        r
    }
}

/// The result for an invocation without words.
pub open spec fn unresolved() -> Resolution {
    Resolution { stack: Seq::empty(), call: Seq::empty(), status: CanonicalisedStatus::NotFound }
}

/// The call text after the word `name` was used: the words so far, one space
/// between them.
pub open spec fn extended(call: Seq<char>, name: Seq<char>) -> Seq<char> {
    trimmed(call + " "@ + name)
}

/// What one lookup decides.
pub enum Step {
    /// The walk ends with this status and call text.
    Done { status: CanonicalisedStatus, call: Seq<char> },
    /// The walk goes on at `name` in `registry`; `next` is the position of the
    /// first word not yet used.
    Go { registry: Seq<char>, name: Seq<char>, next: int, call: Seq<char> },
}

/// The word of the line that was taken last: the one before position `next`.
/// It is what the user typed for the place that is looked up now, whatever
/// links led from it.
pub open spec fn typed(line: Seq<Seq<char>>, next: int) -> Seq<char> {
    line[next - 1]
}

/// The decision of the lookup of `name` in `registry`. The name is looked up in
/// lower case. A command ends the walk, and the word that was typed for it
/// joins the call text; a subregistry adds the typed word too and takes the
/// next word into its registry; a link leads to its target and leaves the call
/// text alone; a name that is absent is looked up in the parent registry, if
/// there is one.
pub open spec fn step(
    cmds: Map<Key, EntryView>,
    regs: Map<Seq<char>, RegistryView>,
    line: Seq<Seq<char>>,
    next: int,
    registry: Seq<char>,
    name: Seq<char>,
    call: Seq<char>,
) -> Step {
    let key = (registry, lowercase(name));
    if cmds.contains_key(key) {
        match cmds[key].node {
            NodeView::Cmd(_) => Step::Done {
                status: CanonicalisedStatus::Success,
                call: extended(call, typed(line, next)),
            },
            NodeView::Subregistry(target) => if 0 <= next < line.len() {
                Step::Go {
                    registry: target,
                    name: line[next],
                    next: next + 1,
                    call: extended(call, typed(line, next)),
                }
            } else {
                Step::Done {
                    status: CanonicalisedStatus::FailedSubcommand,
                    call: extended(call, typed(line, next)),
                }
            },
            NodeView::Symlink { reg, name: target } => Step::Go {
                registry: reg,
                name: target,
                next,
                call,
            },
        }
    } else if regs.contains_key(registry) && regs[registry].parent is Some {
        Step::Go { registry: regs[registry].parent->Some_0, name, next, call }
    } else {
        Step::Done { status: CanonicalisedStatus::NotFound, call }
    }
}

/// The walk from `name` in `registry` with `fuel` lookups left. `stack` holds
/// the places seen so far, the present one last.
pub open spec fn walk(
    cmds: Map<Key, EntryView>,
    regs: Map<Seq<char>, RegistryView>,
    line: Seq<Seq<char>>,
    next: int,
    registry: Seq<char>,
    name: Seq<char>,
    stack: Seq<Key>,
    call: Seq<char>,
    fuel: nat,
) -> Resolution
    decreases fuel,
{
    if fuel == 0 {
        Resolution { stack, call, status: CanonicalisedStatus::Overflow }
    } else {
        match step(cmds, regs, line, next, registry, name, call) {
            Step::Done { status, call: said } => Resolution { stack, call: said, status },
            Step::Go { registry: r, name: n, next: m, call: said } => if stack.contains((r, n)) {
                Resolution {
                    stack: stack.push((r, n)),
                    call: said,
                    status: CanonicalisedStatus::Recursive,
                }
            } else {
                walk(cmds, regs, line, m, r, n, stack.push((r, n)), said, (fuel - 1) as nat)
            },
        }
    }
}

/// The resolution of the invocation `text`, started in `registry`.
pub open spec fn resolve(
    cmds: Map<Key, EntryView>,
    regs: Map<Seq<char>, RegistryView>,
    registry: Seq<char>,
    text: Seq<char>,
) -> Resolution {
    let line = words(text);
    if line.len() == 0 {
        unresolved()
    } else {
        walk(
            cmds,
            regs,
            line,
            1,
            registry,
            line[0],
            seq![(registry, line[0])],
            Seq::empty(),
            COMMAND_SEARCH_DEPTH_LIMIT as nat,
        )
    }
}

/// What holds of every walk that starts with a stack without repetition whose
/// last place is the present one: the stack only grows, by at most one place
/// for each lookup; a walk that ends as recursive has come back to a place it
/// had seen, and no other place occurs twice; a walk that ends as found stands
/// at a command.
pub proof fn lemma_walk_shape(
    cmds: Map<Key, EntryView>,
    regs: Map<Seq<char>, RegistryView>,
    line: Seq<Seq<char>>,
    next: int,
    registry: Seq<char>,
    name: Seq<char>,
    stack: Seq<Key>,
    call: Seq<char>,
    fuel: nat,
)
    requires
        stack.no_duplicates(),
        stack.len() > 0,
        stack.last() == (registry, name),
    ensures
        ({
            let r = walk(cmds, regs, line, next, registry, name, stack, call, fuel);
            &&& stack.is_prefix_of(r.stack)
            &&& r.stack.len() <= stack.len() + fuel
            &&& r.status == CanonicalisedStatus::Overflow ==> r.stack.len() == stack.len() + fuel
            &&& r.status == CanonicalisedStatus::Recursive ==> r.stack.drop_last().no_duplicates()
                && r.stack.drop_last().contains(r.stack.last())
            &&& r.status != CanonicalisedStatus::Recursive ==> r.stack.no_duplicates()
            &&& r.status == CanonicalisedStatus::Success ==> cmds.contains_key(
                (r.stack.last().0, lowercase(r.stack.last().1)),
            ) && cmds[(r.stack.last().0, lowercase(r.stack.last().1))].node is Cmd
        }),
    decreases fuel,
{
    let r = walk(cmds, regs, line, next, registry, name, stack, call, fuel);
    if fuel > 0 {
        match step(cmds, regs, line, next, registry, name, call) {
            Step::Done { status, call: said } => {},
            Step::Go { registry: to, name: n, next: m, call: said } => {
                let grown = stack.push((to, n));
                assert(grown.drop_last() =~= stack);
                if !stack.contains((to, n)) {
                    assert forall|i: int, j: int|
                        0 <= i < grown.len() && 0 <= j < grown.len() && i != j implies grown[i]
                        != grown[j] by {
                        if i < stack.len() {
                            assert(stack.contains(stack[i]));
                        }
                        if j < stack.len() {
                            assert(stack.contains(stack[j]));
                        }
                    }
                    lemma_walk_shape(cmds, regs, line, m, to, n, grown, said, (fuel - 1) as nat);
                    assert(stack =~= grown.subrange(0, stack.len() as int));
                }
            },
        }
    }
}

/// What holds of every resolution: the stack has at most one place more than
/// lookups are allowed; a resolution that ends as recursive has come back to a
/// place it had seen, and no other place occurs twice; a resolution that ends
/// as found stands at a command.
pub proof fn lemma_resolve_shape(
    cmds: Map<Key, EntryView>,
    regs: Map<Seq<char>, RegistryView>,
    registry: Seq<char>,
    text: Seq<char>,
)
    ensures
        ({
            let r = resolve(cmds, regs, registry, text);
            &&& r.stack.len() <= COMMAND_SEARCH_DEPTH_LIMIT + 1
            &&& r.stack.len() == 0 <==> words(text).len() == 0
            &&& r.stack.len() > 0 ==> r.stack[0] == (registry, words(text)[0])
            &&& r.status == CanonicalisedStatus::Recursive ==> r.stack.drop_last().no_duplicates()
                && r.stack.drop_last().contains(r.stack.last())
            &&& r.status != CanonicalisedStatus::Recursive ==> r.stack.no_duplicates()
            &&& r.status == CanonicalisedStatus::Success ==> cmds.contains_key(
                (r.stack.last().0, lowercase(r.stack.last().1)),
            ) && cmds[(r.stack.last().0, lowercase(r.stack.last().1))].node is Cmd
        }),
{
    let line = words(text);
    if line.len() > 0 {
        let start = seq![(registry, line[0])];
        lemma_walk_shape(
            cmds,
            regs,
            line,
            1,
            registry,
            line[0],
            start,
            Seq::empty(),
            COMMAND_SEARCH_DEPTH_LIMIT as nat,
        );
        let r = resolve(cmds, regs, registry, text);
        assert(start.is_prefix_of(r.stack));
        assert(r.stack.subrange(0, 1)[0] == start[0]);
    } else {
        assert(resolve(cmds, regs, registry, text).stack.len() == 0);
    }
}

/// Two links that lead to each other are found out: where `first` is a link to
/// `second` and `second` a link back to `first`, both in `registry`, an
/// invocation of `first` ends as recursive after two lookups, and the stack
/// shows the way there and back.
pub proof fn lemma_link_cycle(
    cmds: Map<Key, EntryView>,
    regs: Map<Seq<char>, RegistryView>,
    registry: Seq<char>,
    first: Seq<char>,
    second: Seq<char>,
    text: Seq<char>,
)
    requires
        words(text).len() > 0,
        words(text)[0] == first,
        first != second,
        cmds.contains_key((registry, lowercase(first))),
        cmds[(registry, lowercase(first))].node == (NodeView::Symlink {
            reg: registry,
            name: second,
        }),
        cmds.contains_key((registry, lowercase(second))),
        cmds[(registry, lowercase(second))].node == (NodeView::Symlink {
            reg: registry,
            name: first,
        }),
    ensures
        resolve(cmds, regs, registry, text).status == CanonicalisedStatus::Recursive,
        resolve(cmds, regs, registry, text).stack == seq![
            (registry, first),
            (registry, second),
            (registry, first),
        ],
{
    let line = words(text);
    let s0 = seq![(registry, first)];
    let s1 = s0.push((registry, second));
    assert(!s0.contains((registry, second))) by {
        if s0.contains((registry, second)) {
            let i = s0.index_of((registry, second));
            assert(s0[i] == (registry, first));
        }
    }
    assert(s1.contains((registry, first))) by {
        assert(s1[0] == (registry, first));
    }
    reveal_with_fuel(walk, 3);
    assert(s1.push((registry, first)) =~= seq![
        (registry, first),
        (registry, second),
        (registry, first),
    ]);
}

/// A subregistry that is named without a command inside it is told apart from
/// a name that is not found: the resolution ends as a failed subcommand, with
/// the one word as its call text.
pub proof fn lemma_subregistry_alone(
    cmds: Map<Key, EntryView>,
    regs: Map<Seq<char>, RegistryView>,
    registry: Seq<char>,
    text: Seq<char>,
)
    requires
        words(text).len() == 1,
        cmds.contains_key((registry, lowercase(words(text)[0]))),
        cmds[(registry, lowercase(words(text)[0]))].node is Subregistry,
    ensures
        resolve(cmds, regs, registry, text) == (Resolution {
            stack: seq![(registry, words(text)[0])],
            call: words(text)[0],
            status: CanonicalisedStatus::FailedSubcommand,
        }),
{
    reveal_with_fuel(walk, 2);
    lemma_first_word_alone(text);
}

/// A link does not show in the call text: where `alias` is a link to a command
/// elsewhere, an invocation of `alias` is found, and its call text is the word
/// that was typed, not the name of the command.
pub proof fn lemma_link_keeps_typed_word(
    cmds: Map<Key, EntryView>,
    regs: Map<Seq<char>, RegistryView>,
    registry: Seq<char>,
    alias: Seq<char>,
    target_registry: Seq<char>,
    target: Seq<char>,
    text: Seq<char>,
)
    requires
        words(text).len() > 0,
        words(text)[0] == alias,
        (target_registry, target) != (registry, alias),
        cmds.contains_key((registry, lowercase(alias))),
        cmds[(registry, lowercase(alias))].node == (NodeView::Symlink {
            reg: target_registry,
            name: target,
        }),
        cmds.contains_key((target_registry, lowercase(target))),
        cmds[(target_registry, lowercase(target))].node is Cmd,
    ensures
        resolve(cmds, regs, registry, text) == (Resolution {
            stack: seq![(registry, alias), (target_registry, target)],
            call: alias,
            status: CanonicalisedStatus::Success,
        }),
{
    lemma_first_word_alone(text);
    let s0 = seq![(registry, alias)];
    assert(!s0.contains((target_registry, target))) by {
        if s0.contains((target_registry, target)) {
            let i = s0.index_of((target_registry, target));
            assert(s0[i] == (registry, alias));
        }
    }
    reveal_with_fuel(walk, 3);
    assert(s0.push((target_registry, target)) =~= seq![
        (registry, alias),
        (target_registry, target),
    ]);
}

/// The call text that the first word of a text makes alone is that word.
pub proof fn lemma_first_word_alone(text: Seq<char>)
    requires
        words(text).len() > 0,
    ensures
        extended(Seq::empty(), words(text)[0]) == words(text)[0],
{
    lemma_words_are_words(text, 0);
    let none = Seq::<Seq<char>>::empty();
    lemma_call_grows(none, words(text)[0]);
    assert(none.push(words(text)[0]).len() == 1);
}

/// The call text grows by whole words: after the words `parts`, the word `w`
/// makes it the words `parts` and `w`, one space between them.
pub proof fn lemma_call_grows(parts: Seq<Seq<char>>, w: Seq<char>)
    requires
        forall|k: int| 0 <= k < parts.len() ==> is_word(#[trigger] parts[k]),
        is_word(w),
    ensures
        extended(joined(parts), w) == joined(parts.push(w)),
{
    reveal_strlit(" ");
    assert(char_is_whitespace(' '));
    assert(parts.push(w).drop_last() =~= parts);
    let text = joined(parts) + " "@ + w;
    if parts.len() == 0 {
        assert(text =~= seq![' '] + w);
        assert(text[0] == ' ');
        assert(text[1] == w[0]);
        assert(!char_is_whitespace(w[0]));
        assert(text.last() == w.last());
        assert(text.subrange(1, text.len() as int) =~= w);
        assert(trimmed(text) == w) by {
            reveal_with_fuel(crate::text::ws_end, 3);
            reveal_with_fuel(crate::text::ws_start, 2);
        }
    } else {
        lemma_joined_ends(parts);
        assert(text[0] == joined(parts)[0]);
        assert(text.last() == w.last());
        lemma_trimmed_unchanged(text);
    }
}

/// What holds of the call text along every walk that starts with the words
/// typed so far as its call text: it ends as the first of the typed words, one
/// space between them, up to some word; and a walk that finds a command has
/// taken at least the word that was typed for it.
pub proof fn lemma_walk_call(
    cmds: Map<Key, EntryView>,
    regs: Map<Seq<char>, RegistryView>,
    line: Seq<Seq<char>>,
    next: int,
    registry: Seq<char>,
    name: Seq<char>,
    stack: Seq<Key>,
    call: Seq<char>,
    fuel: nat,
) -> (taken: int)
    requires
        1 <= next <= line.len(),
        forall|k: int| 0 <= k < line.len() ==> is_word(#[trigger] line[k]),
        call == joined(line.take(next - 1)),
    ensures
        next - 1 <= taken <= line.len(),
        walk(cmds, regs, line, next, registry, name, stack, call, fuel).call == joined(
            line.take(taken),
        ),
        walk(cmds, regs, line, next, registry, name, stack, call, fuel).status
            == CanonicalisedStatus::Success ==> taken >= next,
    decreases fuel,
{
    if fuel == 0 {
        next - 1
    } else {
        let front = line.take(next - 1);
        assert forall|k: int| 0 <= k < front.len() implies is_word(#[trigger] front[k]) by {
            assert(front[k] == line[k]);
        }
        lemma_call_grows(front, typed(line, next));
        assert(front.push(typed(line, next)) =~= line.take(next));
        match step(cmds, regs, line, next, registry, name, call) {
            Step::Done { status, call: said } => if status == CanonicalisedStatus::NotFound {
                next - 1
            } else {
                next
            },
            Step::Go { registry: r, name: n, next: m, call: said } => if stack.contains((r, n)) {
                m - 1
            } else {
                lemma_walk_call(cmds, regs, line, m, r, n, stack.push((r, n)), said, (fuel - 1) as nat)
            },
        }
    }
}

/// The call text of every resolution is made of the words that were typed: the
/// first of them, up to some word, one space between them. Where a command was
/// found, it holds at least the first word.
pub proof fn lemma_call_is_typed_words(
    cmds: Map<Key, EntryView>,
    regs: Map<Seq<char>, RegistryView>,
    registry: Seq<char>,
    text: Seq<char>,
) -> (taken: int)
    ensures
        0 <= taken <= words(text).len(),
        resolve(cmds, regs, registry, text).call == joined(words(text).take(taken)),
        resolve(cmds, regs, registry, text).status == CanonicalisedStatus::Success ==> taken >= 1,
{
    let line = words(text);
    if line.len() == 0 {
        assert(line.take(0) =~= Seq::<Seq<char>>::empty());
        0
    } else {
        lemma_words_are_words(text, 0);
        assert(line.take(0) =~= Seq::<Seq<char>>::empty());
        lemma_walk_call(
            cmds,
            regs,
            line,
            1,
            registry,
            line[0],
            seq![(registry, line[0])],
            Seq::empty(),
            COMMAND_SEARCH_DEPTH_LIMIT as nat,
        )
    }
}

} // verus!
