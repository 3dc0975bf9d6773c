//! Tells whether a chemical equation is balanced.

use vstd::prelude::*;
use crate::config::Cli;
use vstd::string::*;
use crate::command::{CmdCtx, ConstructError, CtxView};
use crate::message::{FlopMessagable, Message, ReplyView};
use crate::number::{i64_to_string, signed_decimal};
use crate::text::{
    chars_of, has_piece, join3, parts, some_piece_is, space_out, spaced, split_char, str_eq,
    strip_repeated, substring, trim, trim_start_matches, trimmed, views,
};

verus! {

/// Tells whether a chemical equation is balanced.
#[derive(Debug, Clone, Copy, PartialEq, Eq, Structural)]
pub struct StoikCommand;

/// How the command is called.
pub const HELP_MSG: &'static str =
    "Usage: stoik [FLAGS] ... [EQUATION] ...\nComputes whether EQUATION is chemically balanced or not\n  -h, --help Shows this";

/// The answer to an equation without an arrow.
pub const NO_PRODUCTS: &'static str =
    "Products are not given, please use `=>` or `->` to seperate the two sides";

/// The title over a balanced equation.
pub const BALANCED: &'static str = "✅ Your reaction is balanced ✅";

/// The title over an unbalanced equation.
pub const UNBALANCED: &'static str = "❌ Your reaction is unbalanced ❌";

/// A text with `->` in place of each `=>`.
pub open spec fn arrowed(s: Seq<char>) -> Seq<char> {
    Seq::new(
        s.len(),
        |i: int|
            if s[i] == '=' && i + 1 < s.len() && s[i + 1] == '>' {
                '-'
            } else {
                s[i]
            },
    )
}

/// The first position at or after `i` where `->` stands, or the length where
/// it stands nowhere.
pub open spec fn arrow_at(s: Seq<char>, i: int) -> int
    decreases s.len() - i,
{
    if i < 0 || i + 1 >= s.len() {
        s.len() as int
    } else if s[i] == '-' && s[i + 1] == '>' {
        i
    } else {
        arrow_at(s, i + 1)
    }
}

/// Each text of a list without the white space at its ends.
pub open spec fn trimmed_each(v: Seq<Seq<char>>) -> Seq<Seq<char>> {
    Seq::new(v.len(), |i: int| trimmed(v[i]))
}

/// The formulas of one side of an equation: its parts between `+`.
pub open spec fn formulas(side: Seq<char>) -> Seq<Seq<char>> {
    trimmed_each(parts(trimmed(side), '+'))
}

/// What a call of the command asks for.
pub enum PlanView {
    /// To be told how the command is called.
    Help,
    /// An equation without an arrow.
    NoProducts,
    /// To balance the formulas on the two sides of the arrow.
    Balance { reactants: Seq<Seq<char>>, products: Seq<Seq<char>> },
}

/// What a call of the command asks for.
#[derive(Debug)]
pub enum StoikPlan {
    /// To be told how the command is called.
    Help,
    /// An equation without an arrow.
    NoProducts,
    /// To balance the formulas on the two sides of the arrow.
    Balance { reactants: Vec<String>, products: Vec<String> },
}

impl View for StoikPlan {
    type V = PlanView;

    open spec fn view(&self) -> PlanView {
        match self {
            StoikPlan::Help => PlanView::Help,
            StoikPlan::NoProducts => PlanView::NoProducts,
            StoikPlan::Balance { reactants, products } => PlanView::Balance {
                reactants: views(reactants@),
                products: views(products@),
            },
        }
    }
}

/// The equation of a call: its arguments with single spaces for white space and
/// `->` for `=>`.
pub open spec fn equation_of(content: Seq<char>, ctx: CtxView) -> Seq<char> {
    arrowed(trimmed(" "@ + spaced(trimmed(strip_repeated(content, ctx.command)))))
}

/// What a call asks for: help, where one of its arguments asks for it; else the
/// formulas on the two sides of the first arrow of its equation.
pub open spec fn stoik_plan(content: Seq<char>, ctx: CtxView) -> PlanView {
    let args = trimmed(strip_repeated(content, ctx.command));
    if has_piece(args, "--help"@) || has_piece(args, "-h"@) {
        PlanView::Help
    } else {
        let eq = equation_of(content, ctx);
        let k = arrow_at(eq, 0);
        if k >= eq.len() {
            PlanView::NoProducts
        } else {
            PlanView::Balance {
                reactants: formulas(eq.take(k)),
                products: formulas(eq.skip(k + 2)),
            }
        }
    }
}

/// The atoms of a molecule, or of one side of an equation: each element once,
/// with its count.
pub type Atoms = Vec<(String, i64)>;

/// Counted atoms as a mathematical value.
pub type AtomsView = Seq<(Seq<char>, i64)>;

/// The view of counted atoms.
pub open spec fn atoms_view(a: Seq<(String, i64)>) -> AtomsView {
    Seq::new(a.len(), |i: int| (a[i].0@, a[i].1))
}

/// The first position at or after `i` that holds the element `key`, or the
/// length where none does.
pub open spec fn element_at(a: AtomsView, key: Seq<char>, i: int) -> int
    decreases a.len() - i,
{
    if 0 <= i < a.len() && a[i].0 != key {
        element_at(a, key, i + 1)
    } else {
        i
    }
}

/// The count of the element `key`, where it is counted.
pub open spec fn count_of(a: AtomsView, key: Seq<char>) -> Option<i64> {
    let k = element_at(a, key, 0);
    if 0 <= k < a.len() {
        Some(a[k].1)
    } else {
        None
    }
}

/// Counted atoms with `n` more of the element `key`. The sum wraps round where
/// it does not fit.
pub open spec fn with_atoms(a: AtomsView, key: Seq<char>, n: i64) -> AtomsView {
    let k = element_at(a, key, 0);
    if 0 <= k < a.len() {
        a.update(k, (key, a[k].1.wrapping_add(n)))
    } else {
        a.push((key, n))
    }
}

/// Counted atoms with those of a molecule added.
pub open spec fn merged(main: AtomsView, mol: AtomsView) -> AtomsView
    decreases mol.len(),
{
    if mol.len() == 0 {
        main
    } else {
        with_atoms(merged(main, mol.drop_last()), mol.last().0, mol.last().1)
    }
}

/// The counts of one side for the elements of `keys`, each on a line of its
/// own; zero for an element that the side lacks.
pub open spec fn count_lines(side: AtomsView, keys: AtomsView) -> Seq<char>
    decreases keys.len(),
{
    if keys.len() == 0 {
        Seq::empty()
    } else {
        count_lines(side, keys.drop_last()) + "\n"@ + signed_decimal(
            match count_of(side, keys.last().0) {
                Some(n) => n as int,
                None => 0,
            },
        )
    }
}

/// Whether the two sides agree on the element `key`.
pub open spec fn agrees(lhs: AtomsView, rhs: AtomsView, key: Seq<char>) -> bool {
    count_of(lhs, key) == count_of(rhs, key)
}

/// A mark for each element of `keys`: whether the two sides agree on it.
pub open spec fn mark_lines(lhs: AtomsView, rhs: AtomsView, keys: AtomsView) -> Seq<char>
    decreases keys.len(),
{
    if keys.len() == 0 {
        Seq::empty()
    } else {
        mark_lines(lhs, rhs, keys.drop_last()) + if agrees(lhs, rhs, keys.last().0) {
            "✅✅\n"@
        } else {
            "❌❌\n"@
        }
    }
}

/// Whether the two sides agree on every element of `keys`.
pub open spec fn all_agree(lhs: AtomsView, rhs: AtomsView, keys: AtomsView) -> bool {
    forall|i: int| 0 <= i < keys.len() ==> agrees(lhs, rhs, #[trigger] keys[i].0)
}

/// The comparison of the two sides of an equation, as it is shown.
#[derive(Debug)]
pub struct Balance {
    /// The title: whether the equation is balanced.
    pub title: String,
    /// The counts of the reactants, one line for each element.
    pub reactants: String,
    /// The counts of the products, one line for each element.
    pub products: String,
    /// The marks, one line for each element.
    pub marks: String,
    /// Whether the equation is balanced.
    pub balanced: bool,
}

/// What is shown for the atoms of the two sides. The elements are those of the
/// two sides together.
pub open spec fn shown(b: Balance, lhs: AtomsView, rhs: AtomsView) -> bool {
    let keys = merged(lhs, rhs);
    &&& b.balanced == all_agree(lhs, rhs, keys)
    &&& b.title@ == if b.balanced {
        BALANCED@
    } else {
        UNBALANCED@
    }
    &&& b.reactants@ == "```"@ + count_lines(lhs, keys) + "```"@
    &&& b.products@ == "```"@ + count_lines(rhs, keys) + "```"@
    &&& b.marks@ == "```"@ + mark_lines(lhs, rhs, keys) + "```"@
}

fn find_element(a: &Atoms, key: &str) -> (r: usize)
    ensures
        r == element_at(atoms_view(a@), key@, 0),
        r <= a@.len(),
{
    let mut i: usize = 0;
    while i < a.len() && !str_eq(a[i].0.as_str(), key)
        invariant
            i <= a@.len(),
            element_at(atoms_view(a@), key@, 0) == element_at(atoms_view(a@), key@, i as int),
        decreases a@.len() - i,
    {
        i += 1;
    }
    i
}

fn count(a: &Atoms, key: &str) -> (r: Option<i64>)
    ensures
        r == count_of(atoms_view(a@), key@),
{
    let k = find_element(a, key);
    if k < a.len() {
        Some(a[k].1)
    } else {
        None
    }
}

/// Adds the atoms of a molecule to counted atoms.
pub fn extend_mol_map(main: &mut Atoms, mol: &Atoms)
    ensures
        atoms_view(final(main)@) == merged(atoms_view(old(main)@), atoms_view(mol@)),
{
    let mut i: usize = 0;
    assert(atoms_view(mol@).take(0) =~= Seq::empty());
    while i < mol.len()
        invariant
            i <= mol@.len(),
            atoms_view(main@) == merged(atoms_view(old(main)@), atoms_view(mol@).take(i as int)),
        decreases mol@.len() - i,
    {
        proof {
            assert(atoms_view(mol@).take(i + 1).drop_last() =~= atoms_view(mol@).take(i as int));
        }
        let ghost before = atoms_view(main@);
        let key = mol[i].0.as_str();
        let n = mol[i].1;
        let k = find_element(main, key);
        if k < main.len() {
            let sum = main[k].1.wrapping_add(n);
            main.set(k, (key.to_owned(), sum));
            assert(atoms_view(main@) =~= before.update(k as int, (key@, sum)));
        } else {
            main.push((key.to_owned(), n));
            assert(atoms_view(main@) =~= before.push((key@, n)));
        }
        i += 1;
    }
    assert(atoms_view(mol@).take(i as int) =~= atoms_view(mol@));
}

impl StoikCommand {
    /// Builds the command; it keeps neither the settings nor stored data.
    pub fn construct(_cli: &Cli, _data: &[u8]) -> (r: Result<StoikCommand, ConstructError>)
        ensures
            r == Ok::<StoikCommand, ConstructError>(StoikCommand),
    {
        Ok(StoikCommand)
    }

    /// Nothing is stored for this command.
    pub fn save(&self) -> (r: Option<Vec<u8>>)
        ensures
            r is None,
    {
        None
    }

    /// Reads what a call asks for.
    pub fn plan(msg: &Message, ctx: &CmdCtx) -> (r: StoikPlan)
        ensures
            r@ == stoik_plan(msg.content@, ctx@),
    {
        let rest = trim_start_matches(msg.content.as_str(), ctx.command);
        let args = trim(rest.as_str());
        if some_piece_is(args.as_str(), "--help") || some_piece_is(args.as_str(), "-h") {
            return StoikPlan::Help;
        }
        let mut wide = " ".to_owned();
        wide.append(space_out(args.as_str()).as_str());
        let plain = trim(wide.as_str());
        let eq = with_arrows(plain.as_str());
        let cs = chars_of(eq.as_str());
        let n: usize = cs.len();
        let mut k: usize = 0;
        while k < n && n - k >= 2 && !(cs[k] == '-' && cs[k + 1] == '>')
            invariant
                cs@ == eq@,
                n == cs@.len(),
                k <= n,
                arrow_at(eq@, 0) == arrow_at(eq@, k as int),
            decreases n - k,
        {
            k += 1;
        }
        if n - k < 2 {
            return StoikPlan::NoProducts;
        }
        let left = substring(eq.as_str(), 0, k);
        let right = substring(eq.as_str(), k + 2, n);
        StoikPlan::Balance {
            reactants: side_formulas(left.as_str()),
            products: side_formulas(right.as_str()),
        }
    }

    /// The answer to a call that is not an equation to balance; none where it
    /// is one.
    pub fn answer(plan: &StoikPlan) -> (r: Option<FlopMessagable>)
        ensures
            match plan@ {
                PlanView::Help => r is Some && r->Some_0@ == ReplyView::Text(HELP_MSG@),
                PlanView::NoProducts => r is Some && r->Some_0@ == ReplyView::Text(NO_PRODUCTS@),
                PlanView::Balance { .. } => r is None,
            },
    {
        match plan {
            StoikPlan::Help => Some(FlopMessagable::Text(HELP_MSG.to_owned())),
            StoikPlan::NoProducts => Some(FlopMessagable::Text(NO_PRODUCTS.to_owned())),
            StoikPlan::Balance { .. } => None,
        }
    }

    /// The answer to a formula that could not be read; `error` says why.
    pub fn malformed(error: &str) -> (r: FlopMessagable)
        ensures
            r@ == ReplyView::Text("```"@ + error@ + "```"@),
    {
        FlopMessagable::Text(join3("```", error, "```"))
    }

    /// Compares the atoms of the two sides of an equation.
    pub fn balance(lhs: &Atoms, rhs: &Atoms) -> (r: Balance)
        ensures
            shown(r, atoms_view(lhs@), atoms_view(rhs@)),
    {
        let mut keys: Atoms = copy_atoms(lhs);
        extend_mol_map(&mut keys, rhs);
        let ghost l = atoms_view(lhs@);
        let ghost r = atoms_view(rhs@);
        let ghost ks = atoms_view(keys@);
        let mut left = "```".to_owned();
        let mut right = "```".to_owned();
        let mut marks = "```".to_owned();
        let mut balanced = true;
        let mut i: usize = 0;
        assert(ks.take(0) =~= Seq::empty());
        while i < keys.len()
            invariant
                i <= keys@.len(),
                ks == atoms_view(keys@),
                l == atoms_view(lhs@),
                r == atoms_view(rhs@),
                left@ == "```"@ + count_lines(l, ks.take(i as int)),
                right@ == "```"@ + count_lines(r, ks.take(i as int)),
                marks@ == "```"@ + mark_lines(l, r, ks.take(i as int)),
                balanced == all_agree(l, r, ks.take(i as int)),
            decreases keys@.len() - i,
        {
            proof {
                assert(ks.take(i + 1).drop_last() =~= ks.take(i as int));
                assert(ks.take(i + 1).last() == ks[i as int]);
            }
            let key = keys[i].0.as_str();
            let a = count(lhs, key);
            let b = count(rhs, key);
            let ghost left_before = left@;
            let ghost right_before = right@;
            let ghost marks_before = marks@;
            left.append("\n");
            left.append(
                i64_to_string(
                    match a {
                        Some(n) => n,
                        None => 0,
                    },
                ).as_str(),
            );
            right.append("\n");
            right.append(
                i64_to_string(
                    match b {
                        Some(n) => n,
                        None => 0,
                    },
                ).as_str(),
            );
            let same = match (a, b) {
                (Some(x), Some(y)) => x == y,
                (None, None) => true,
                _ => false,
            };
            if same {
                marks.append("✅✅\n");
            } else {
                marks.append("❌❌\n");
                balanced = false;
            }
            proof {
                assert(left@ =~= "```"@ + count_lines(l, ks.take(i + 1)));
                assert(right@ =~= "```"@ + count_lines(r, ks.take(i + 1)));
                assert(marks@ =~= "```"@ + mark_lines(l, r, ks.take(i + 1)));
                assert(all_agree(l, r, ks.take(i + 1)) == (all_agree(l, r, ks.take(i as int))
                    && same)) by {
                    if all_agree(l, r, ks.take(i + 1)) {
                        assert(ks.take(i + 1)[i as int] == ks[i as int]);
                        assert forall|j: int| 0 <= j < i implies agrees(
                            l,
                            r,
                            #[trigger] ks.take(i as int)[j].0,
                        ) by {
                            assert(ks.take(i + 1)[j] == ks.take(i as int)[j]);
                        }
                    }
                    if all_agree(l, r, ks.take(i as int)) && same {
                        assert forall|j: int| 0 <= j < i + 1 implies agrees(
                            l,
                            r,
                            #[trigger] ks.take(i + 1)[j].0,
                        ) by {
                            if j < i {
                                assert(ks.take(i + 1)[j] == ks.take(i as int)[j]);
                            }
                        }
                    }
                }
            }
            i += 1;
        }
        assert(ks.take(i as int) =~= ks);
        left.append("```");
        right.append("```");
        marks.append("```");
        let title = if balanced {
            BALANCED.to_owned()
        } else {
            UNBALANCED.to_owned()
        };
        Balance { title, reactants: left, products: right, marks, balanced }
    }
}

fn copy_atoms(a: &Atoms) -> (r: Atoms)
    ensures
        atoms_view(r@) == atoms_view(a@),
{
    let mut out: Atoms = Vec::new();
    let mut i: usize = 0;
    while i < a.len()
        invariant
            i <= a@.len(),
            atoms_view(out@) == atoms_view(a@).take(i as int),
        decreases a@.len() - i,
    {
        let ghost before = atoms_view(out@);
        let name = a[i].0.clone();
        out.push((name, a[i].1));
        assert(atoms_view(out@) =~= before.push((a@[i as int].0@, a@[i as int].1)));
        assert(atoms_view(out@) =~= atoms_view(a@).take(i + 1));
        i += 1;
    }
    assert(atoms_view(out@) =~= atoms_view(a@));
    out
}

fn with_arrows(s: &str) -> (r: String)
    ensures
        r@ == arrowed(s@),
{
    let cs = chars_of(s);
    let n: usize = cs.len();
    let mut out = String::new();
    let mut i: usize = 0;
    proof {
        reveal_strlit("-");
    }
    while i < n
        invariant
            cs@ == s@,
            n == cs@.len(),
            i <= n,
            "-"@ == seq!['-'],
            out@ == arrowed(s@).take(i as int),
        decreases n - i,
    {
        if cs[i] == '=' && i + 1 < n && cs[i + 1] == '>' {
            out.append("-");
        } else {
            out.append(substring(s, i, i + 1).as_str());
        }
        assert(out@ =~= arrowed(s@).take(i + 1));
        i += 1;
    }
    assert(out@ =~= arrowed(s@));
    out
}

fn side_formulas(side: &str) -> (r: Vec<String>)
    ensures
        views(r@) == formulas(side@),
{
    let raw = split_char(trim(side).as_str(), '+');
    let mut out: Vec<String> = Vec::new();
    let mut i: usize = 0;
    while i < raw.len()
        invariant
            i <= raw@.len(),
            views(raw@) == parts(trimmed(side@), '+'),
            views(out@) == formulas(side@).take(i as int),
        decreases raw@.len() - i,
    {
        let ghost before = views(out@);
        let formula = trim(raw[i].as_str());
        assert(views(raw@)[i as int] == raw@[i as int]@);
        assert(formula@ == formulas(side@)[i as int]);
        out.push(formula);
        assert(views(out@) =~= before.push(formula@));
        assert(views(out@) =~= formulas(side@).take(i + 1));
        i += 1;
    }
    assert(views(out@) =~= formulas(side@));
    out
}

} // verus!
