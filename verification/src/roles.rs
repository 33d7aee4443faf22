//! What a support ship is for: one role is one job it knows how to do, and
//! the hull that draws it is the civil trade that would actually do it.

use vstd::prelude::*;
use crate::text::{chars_of, same_chars, spec_split, split_all};

verus! {

broadcast use vstd::string::group_string_axioms;

/// What a support ship is for.
#[derive(Clone, Copy, PartialEq, Eq, Debug, Structural)]
pub enum Role {
    Miner,
    Tanker,
    Salvager,
    Survey,
    Freighter,
    Tender,
}

/// Every role there is, in the order research works through them.
pub open spec fn role_order() -> Seq<Role> {
    seq![Role::Miner, Role::Tanker, Role::Salvager, Role::Survey, Role::Freighter, Role::Tender]
}

/// The hull a role flies.
pub open spec fn spec_hull(r: Role) -> Seq<char> {
    match r {
        Role::Miner => "civil_miner"@,
        Role::Tanker => "civil_tanker"@,
        Role::Salvager => "civil_hauler"@,
        Role::Survey => "civil_lighter"@,
        Role::Freighter => "freighter"@,
        Role::Tender => "civil_liner"@,
    }
}

/// What a role is called.
pub open spec fn spec_label(r: Role) -> Seq<char> {
    match r {
        Role::Miner => "miner"@,
        Role::Tanker => "tanker"@,
        Role::Salvager => "salvager"@,
        Role::Survey => "survey ship"@,
        Role::Freighter => "freighter"@,
        Role::Tender => "tender"@,
    }
}

/// Whether `s` names `r`: the first word of its label, or its hull.
pub open spec fn names_role(s: Seq<char>, r: Role) -> bool {
    spec_split(spec_label(r), ' ')[0] == s || spec_hull(r) == s
}

/// The first of `roles` that `s` names.
pub open spec fn parse_in(s: Seq<char>, roles: Seq<Role>) -> Option<Role>
    decreases roles.len(),
{
    if roles.len() == 0 {
        None
    } else if names_role(s, roles[0]) {
        Some(roles[0])
    } else {
        parse_in(s, roles.drop_first())
    }
}

pub open spec fn spec_cuts_rock(r: Role) -> bool {
    r == Role::Miner || r == Role::Survey
}

pub open spec fn spec_cuts_wreck(r: Role) -> bool {
    r == Role::Salvager || r == Role::Survey
}

/// Every role there is, as the yard lists them.
pub fn all_roles() -> (v: Vec<Role>)
    ensures
        v@ == role_order(),
{
    let v = vec![
        Role::Miner,
        Role::Tanker,
        Role::Salvager,
        Role::Survey,
        Role::Freighter,
        Role::Tender,
    ];
    assert(v@ =~= role_order());
    v
}

impl Role {
    /// The hull a role flies, which is a trade already in the fleet.
    pub fn hull(self) -> (s: &'static str)
        ensures
            s@ == spec_hull(self),
    {
        match self {
            Role::Miner => "civil_miner",
            Role::Tanker => "civil_tanker",
            Role::Salvager => "civil_hauler",
            Role::Survey => "civil_lighter",
            Role::Freighter => "freighter",
            Role::Tender => "civil_liner",
        }
    }

    pub fn label(self) -> (s: &'static str)
        ensures
            s@ == spec_label(self),
    {
        match self {
            Role::Miner => "miner",
            Role::Tanker => "tanker",
            Role::Salvager => "salvager",
            Role::Survey => "survey ship",
            Role::Freighter => "freighter",
            Role::Tender => "tender",
        }
    }

    /// A miner cuts rocks, and a survey ship scans them.
    pub fn cuts_rock(self) -> (b: bool)
        ensures
            b == spec_cuts_rock(self),
    {
        matches!(self, Role::Miner | Role::Survey)
    }

    /// A salvager cuts hulls, and a survey ship scans them.
    pub fn cuts_wreck(self) -> (b: bool)
        ensures
            b == spec_cuts_wreck(self),
    {
        matches!(self, Role::Salvager | Role::Survey)
    }

    /// A survey ship reads a body rather than cutting it.
    pub fn scans(self) -> (b: bool)
        ensures
            b == (self == Role::Survey),
    {
        matches!(self, Role::Survey)
    }

    /// A tender is the one ship that mends rather than breaks.
    pub fn mends(self) -> (b: bool)
        ensures
            b == (self == Role::Tender),
    {
        matches!(self, Role::Tender)
    }

    /// The role a word names: the first word of a role's label, or the hull
    /// it flies, whichever role comes first in the yard's list.
    pub fn parse(s: &str) -> (r: Option<Role>)
        ensures
            r == parse_in(s@, role_order()),
    {
        let want = chars_of(s);
        let roles = all_roles();
        let mut i: usize = 0;
        assert(role_order().skip(0) =~= role_order());
        while i < roles.len()
            invariant
                roles@ == role_order(),
                want@ == s@,
                i <= roles.len(),
                parse_in(s@, role_order()) == parse_in(s@, role_order().skip(i as int)),
            decreases roles.len() - i,
        {
            let r = roles[i];
            let label = chars_of(r.label());
            let words = split_all(&label, ' ');
            let hull = chars_of(r.hull());
            let first_word = same_chars(&words[0], &want);
            let named = first_word || same_chars(&hull, &want);
            proof {
                let rest = role_order().skip(i as int);
                assert(rest[0] == r);
                assert(rest.drop_first() =~= role_order().skip(i + 1));
                assert(named == names_role(s@, r));
            }
            if named {
                return Some(r);
            }
            i = i + 1;
        }
        assert(role_order().skip(i as int).len() == 0);
        None
    }
}

} // verus!

