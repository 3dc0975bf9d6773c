//! Permission roles and the chain by which one role stands in for another.

use vstd::prelude::*;
use vstd::std_specs::cmp::PartialEqSpecImpl;
use crate::text::{lowercase, split_once, split_once_at, str_eq, strip_trailing, to_lowercase, trim_end_matches};

verus! {

/// A permission that a user can hold.
#[derive(Debug)]
#[non_exhaustive]
pub enum FlopRole {
    /// May do anything.
    Admin,
    /// May moderate the named registry: delete commands, change their owners.
    RegMod(String),
    /// May add commands to the named registry.
    RegAdd(String),
    /// May moderate every registry.
    GlobalMod,
    /// May neither use commands nor add to public registries.
    Banned,
}

/// A role as a mathematical value.
pub enum RoleView {
    Admin,
    RegMod(Seq<char>),
    RegAdd(Seq<char>),
    GlobalMod,
    Banned,
}

impl View for FlopRole {
    type V = RoleView;

    open spec fn view(&self) -> RoleView {
        match self {
            FlopRole::Admin => RoleView::Admin,
            FlopRole::RegMod(s) => RoleView::RegMod(s@),
            FlopRole::RegAdd(s) => RoleView::RegAdd(s@),
            FlopRole::GlobalMod => RoleView::GlobalMod,
            FlopRole::Banned => RoleView::Banned,
        }
    }
}

/// The role that stands in for `r` when `r` itself is not held. The moderator
/// of one registry is stood in for by the moderator of all, and that one by the
/// administrator; no role stands in for the others.
pub open spec fn parent_of(r: RoleView) -> Option<RoleView> {
    match r {
        RoleView::Admin => None,
        RoleView::RegMod(_) => Some(RoleView::GlobalMod),
        RoleView::RegAdd(_) => None,
        RoleView::GlobalMod => Some(RoleView::Admin),
        RoleView::Banned => None,
    }
}

/// How many roles stand above `r`.
pub open spec fn rank(r: RoleView) -> nat {
    match r {
        RoleView::RegMod(_) => 2,
        RoleView::GlobalMod => 1,
        _ => 0,
    }
}

/// Whether `held` contains `role` or a role above it.
pub open spec fn grants(held: Seq<RoleView>, role: RoleView) -> bool
    decreases rank(role),
{
    held.contains(role) || match parent_of(role) {
        Some(p) => grants(held, p),
        None => false,
    }
}

/// The role that a text names, if it names one. Case is ignored; a registry
/// role is written as `regmod(name)` or `regadd(name)`.
pub open spec fn parse_role(txt: Seq<char>) -> Option<RoleView> {
    let lower = lowercase(txt);
    if lower == "admin"@ {
        Some(RoleView::Admin)
    } else if lower == "globalmod"@ {
        Some(RoleView::GlobalMod)
    } else if lower == "banned"@ {
        Some(RoleView::Banned)
    } else {
        match split_once_at(lower, '(') {
            None => None,
            Some((name, rest)) => {
                let arg = strip_trailing(rest, ')');
                if name == "regmod"@ {
                    Some(RoleView::RegMod(arg))
                } else if name == "regadd"@ {
                    Some(RoleView::RegAdd(arg))
                } else {
                    None
                }
            },
        }
    }
}

impl PartialEq for FlopRole {
    fn eq(&self, other: &FlopRole) -> (r: bool) {
        match (self, other) {
            (FlopRole::Admin, FlopRole::Admin) => true,
            (FlopRole::RegMod(a), FlopRole::RegMod(b)) => *a == *b,
            (FlopRole::RegAdd(a), FlopRole::RegAdd(b)) => *a == *b,
            (FlopRole::GlobalMod, FlopRole::GlobalMod) => true,
            (FlopRole::Banned, FlopRole::Banned) => true,
            _ => false,
        }
    }
}

impl PartialEqSpecImpl for FlopRole {
    open spec fn obeys_eq_spec() -> bool {
        true
    }

    open spec fn eq_spec(&self, other: &FlopRole) -> bool {
        self@ == other@
    }
}

impl Eq for FlopRole {}

impl Clone for FlopRole {
    fn clone(&self) -> (r: FlopRole)
        ensures
            r@ == self@,
    {
        match self {
            FlopRole::Admin => FlopRole::Admin,
            FlopRole::RegMod(s) => FlopRole::RegMod(s.clone()),
            FlopRole::RegAdd(s) => FlopRole::RegAdd(s.clone()),
            FlopRole::GlobalMod => FlopRole::GlobalMod,
            FlopRole::Banned => FlopRole::Banned,
        }
    }
}

impl FlopRole {
    /// The role that stands in for this one, if any does.
    pub fn get_parent(&self) -> (r: Option<FlopRole>)
        ensures
            match r {
                Some(p) => parent_of(self@) == Some(p@),
                None => parent_of(self@) is None,
            },
    {
        match self {
            FlopRole::Admin => None,
            FlopRole::RegMod(_) => Some(FlopRole::GlobalMod),
            FlopRole::RegAdd(_) => None,
            FlopRole::GlobalMod => Some(FlopRole::Admin),
            FlopRole::Banned => None,
        }
    }

    /// Reads a role from free text.
    pub fn from_str(txt: &str) -> (r: Option<FlopRole>)
        ensures
            match r {
                Some(role) => parse_role(txt@) == Some(role@),
                None => parse_role(txt@) is None,
            },
    {
        let lower = to_lowercase(txt);
        if str_eq(lower.as_str(), "admin") {
            Some(FlopRole::Admin)
        } else if str_eq(lower.as_str(), "globalmod") {
            Some(FlopRole::GlobalMod)
        } else if str_eq(lower.as_str(), "banned") {
            Some(FlopRole::Banned)
        } else {
            match split_once(lower.as_str(), '(') {
                None => None,
                Some((name, rest)) => {
                    let arg = trim_end_matches(rest.as_str(), ')');
                    if str_eq(name.as_str(), "regmod") {
                        Some(FlopRole::RegMod(arg))
                    } else if str_eq(name.as_str(), "regadd") {
                        Some(FlopRole::RegAdd(arg))
                    } else {
                        None
                    }
                },
            }
        }
    }
}

/// The roles above a role form a chain that ends: each parent has fewer roles
/// above it than its child, no role is its own parent, and above any role
/// stand at most two.
pub proof fn lemma_parent_chain_ends(r: RoleView)
    ensures
        rank(r) <= 2,
        parent_of(r) != Some(r),
        parent_of(r) is Some <==> rank(r) > 0,
        parent_of(r) is Some ==> rank(parent_of(r)->Some_0) + 1 == rank(r),
{
}

} // verus!
