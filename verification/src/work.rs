//! Putting support ships to work: the one verb every support ship has,
//! pointed at different things. A miner cuts rocks, a salvager cuts hulls, a
//! survey ship reads either, and none of them does another's job.

use vstd::prelude::*;
use crate::roles::{spec_cuts_rock, spec_cuts_wreck, Role};
use crate::text::{append_chars, chars_of, decimal, decimal_of, string_of};

verus! {

broadcast use vstd::string::group_string_axioms;

/// What a support ship has been told to do.
#[derive(Clone, Copy, PartialEq, Eq, Debug, Structural)]
pub enum Job {
    Idle,
    /// Cutting the body with this id.
    Work(u64),
    /// Nothing left to work: back to the command ship and stand down.
    Home,
}

/// A selected support ship, as the order reads it.
#[derive(Clone, Copy, PartialEq, Eq, Debug, Structural)]
pub struct Cutter {
    pub role: Role,
    pub job: Job,
    /// It keeps station in the formation.
    pub escort: bool,
}

/// The body under the pointer: a rock, with the seam cells left in it, or a
/// wreck.
#[derive(Clone, Copy, PartialEq, Eq, Debug, Structural)]
pub struct Body {
    pub id: u64,
    pub rock: bool,
    pub seam: u32,
}

/// What the right press came to.
#[derive(Clone, Copy, PartialEq, Eq, Debug, Structural)]
pub enum Assigned {
    /// Not this order's press: the button is left for the move order.
    Nothing,
    /// The rock has no seam left; the press is taken all the same.
    MinedOut,
    /// This many ships were put to work; the press is taken.
    ToWork(u32),
}

/// Whether a role can work a body.
pub open spec fn can_work(r: Role, b: Body) -> bool {
    if b.rock {
        spec_cuts_rock(r)
    } else {
        spec_cuts_wreck(r)
    }
}

/// How many of the crews can work a body.
pub open spec fn able(crews: Seq<Cutter>, b: Body) -> nat
    decreases crews.len(),
{
    if crews.len() == 0 {
        0
    } else {
        able(crews.drop_last(), b) + if can_work(crews.last().role, b) {
            1nat
        } else {
            0nat
        }
    }
}

/// A crew once the order is given: one that can work the body works it, and
/// any crew with work to do stops keeping station, as a ship given a move
/// order does.
pub open spec fn put_to_work(c: Cutter, b: Body) -> Cutter {
    let job = if can_work(c.role, b) {
        Job::Work(b.id)
    } else {
        c.job
    };
    Cutter { job, escort: if job is Work { false } else { c.escort }, ..c }
}

/// The order's rule: only in `Idle`, on the right press, for a selection
/// that holds support ships, and on a body under the pointer. A rock with no
/// seam left is refused; otherwise every selected ship that can work the body
/// is put to it, or, if none can, the press is left for the move order.
pub open spec fn spec_assign(
    idle: bool,
    right: bool,
    target: Option<Body>,
    crews: Seq<Cutter>,
) -> (Assigned, Seq<Cutter>) {
    if !idle || !right || crews.len() == 0 {
        (Assigned::Nothing, crews)
    } else {
        match target {
            None => (Assigned::Nothing, crews),
            Some(b) => if b.rock && b.seam == 0 {
                (Assigned::MinedOut, crews)
            } else if able(crews, b) == 0 {
                (Assigned::Nothing, crews)
            } else {
                (
                    Assigned::ToWork(able(crews, b) as u32),
                    crews.map_values(|c: Cutter| put_to_work(c, b)),
                )
            },
        }
    }
}

/// Give the selection a job, when the body under the pointer is one and the
/// selection can do it. `target` is the nearest rock or wreck the pointer
/// passes over, if any.
pub fn assign_work(idle: bool, right: bool, target: Option<Body>, crews: &mut Vec<Cutter>) -> (a:
    Assigned)
    requires
        old(crews)@.len() <= u32::MAX,
    ensures
        (a, final(crews)@) == spec_assign(idle, right, target, old(crews)@),
{
    if !idle || !right || crews.len() == 0 {
        return Assigned::Nothing;
    }
    let b = match target {
        None => return Assigned::Nothing,
        Some(b) => b,
    };
    if b.rock && b.seam == 0 {
        return Assigned::MinedOut;
    }
    let n = crews.len();
    let mut given: u32 = 0;
    let mut i: usize = 0;
    while i < n
        invariant
            n == crews@.len(),
            n <= u32::MAX,
            crews@ == old(crews)@,
            i <= n,
            given == able(crews@.take(i as int), b),
            given <= i,
        decreases n - i,
    {
        proof {
            assert(crews@.take(i + 1).drop_last() =~= crews@.take(i as int));
        }
        let r = crews[i].role;
        if (b.rock && r.cuts_rock()) || (!b.rock && r.cuts_wreck()) {
            given = given + 1;
        }
        i = i + 1;
    }
    proof {
        assert(crews@.take(n as int) =~= crews@);
    }
    if given == 0 {
        return Assigned::Nothing;
    }
    let mut i: usize = 0;
    while i < n
        invariant
            n == old(crews)@.len(),
            crews@.len() == n,
            i <= n,
            forall|k: int| 0 <= k < i ==> #[trigger] crews@[k] == put_to_work(old(crews)@[k], b),
            forall|k: int| i <= k < n ==> #[trigger] crews@[k] == old(crews)@[k],
        decreases n - i,
    {
        let c = crews[i];
        let can = if b.rock {
            c.role.cuts_rock()
        } else {
            c.role.cuts_wreck()
        };
        if can {
            crews.set(i, Cutter { job: Job::Work(b.id), escort: false, ..c });
        } else {
            let keeps = match c.job {
                Job::Work(_) => false,
                _ => c.escort,
            };
            crews.set(i, Cutter { escort: keeps, ..c });
        }
        i = i + 1;
    }
    proof {
        assert(crews@ =~= old(crews)@.map_values(|c: Cutter| put_to_work(c, b)));
    }
    Assigned::ToWork(given)
}

/// What the order tells the player, if anything.
pub open spec fn spec_assigned_text(a: Assigned) -> Option<Seq<char>> {
    match a {
        Assigned::Nothing => None,
        Assigned::MinedOut => Some("that rock is mined out"@),
        Assigned::ToWork(n) => Some(decimal(n as nat) + if n == 1 {
            " ship to work"@
        } else {
            " ships to work"@
        }),
    }
}

impl Assigned {
    /// The line the player reads, if there is one.
    pub fn text(&self) -> (s: Option<String>)
        ensures
            match s {
                Some(t) => spec_assigned_text(*self) == Some(t@),
                None => spec_assigned_text(*self) is None,
            },
    {
        match self {
            Assigned::Nothing => None,
            Assigned::MinedOut => Some(string_of(&chars_of("that rock is mined out"))),
            Assigned::ToWork(n) => {
                let mut out = decimal_of(*n as u64);
                if *n == 1 {
                    append_chars(&mut out, &chars_of(" ship to work"));
                } else {
                    append_chars(&mut out, &chars_of(" ships to work"));
                }
                Some(string_of(&out))
            },
        }
    }
}

} // verus!
