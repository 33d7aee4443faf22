//! Craft that are replaced rather than spent: the fighters a flagship puts
//! up and the collectors that ferry a cutter's cubes.
//!
//! Both follow one rule. Losses are made good rather than launched once, so
//! a mechanic that can be spent is a loop and not a fuse; the whole set goes
//! up the first time, so nothing waits half a minute to exist; and after
//! that one at a time, on a cadence, so a wing rebuilds rather than popping
//! back into existence the frame it was lost.

use vstd::prelude::*;
use crate::roles::Role;

verus! {

/// Ticks between one fighter replaced and the next.
pub const FIGHTER_REPLACE: u32 = 150;

/// How many collectors a cutter keeps, and how often a lost one is replaced.
pub const PER_CUTTER: usize = 2;

pub const COLLECTOR_REPLACE: u32 = 90;

/// How many to launch this frame, and when the next launch may be.
pub open spec fn spec_replacements(out: usize, cap: usize, tick: u32, next: u32, every: u32) -> Option<
    (usize, u32),
> {
    if out >= cap || tick < next {
        None
    } else {
        Some((if out == 0 { cap } else { 1 }, (tick + every) as u32))
    }
}

/// Make good the losses of a set of craft kept at `cap`, with `out` of them
/// up now: nothing when it is whole or the cadence has not come round, the
/// whole set when none is up, and one otherwise.
pub fn replacements(out: usize, cap: usize, tick: u32, next: u32, every: u32) -> (r: Option<
    (usize, u32),
>)
    requires
        tick + every <= u32::MAX,
    ensures
        r == spec_replacements(out, cap, tick, next, every),
        r matches Some((n, _)) ==> 0 < n && out + n <= cap,
{
    if out >= cap || tick < next {
        return None;
    }
    let n = if out == 0 {
        cap
    } else {
        1
    };
    Some((n, tick + every))
}

/// What the collectors need to know of one support ship.
#[derive(Clone, Copy, PartialEq, Eq, Debug, Structural)]
pub struct Crew {
    pub role: Role,
    pub dead: bool,
}

/// The live cutters: every live support ship that makes cubes, which is all
/// but the survey ship, whose work is data and no cargo at all.
pub open spec fn cutters(crews: Seq<Crew>) -> nat
    decreases crews.len(),
{
    if crews.len() == 0 {
        0
    } else {
        cutters(crews.drop_last()) + if !crews.last().dead && crews.last().role != Role::Survey {
            1nat
        } else {
            0nat
        }
    }
}

proof fn lemma_cutters_bounded(crews: Seq<Crew>)
    ensures
        cutters(crews) <= crews.len(),
    decreases crews.len(),
{
    if crews.len() > 0 {
        lemma_cutters_bounded(crews.drop_last());
    }
}

/// How many collectors the fleet keeps: two per live cutter.
pub fn collectors_wanted(crews: &Vec<Crew>) -> (n: usize)
    requires
        crews@.len() * PER_CUTTER <= usize::MAX,
    ensures
        n == cutters(crews@) * PER_CUTTER,
{
    let mut c: usize = 0;
    let mut i: usize = 0;
    while i < crews.len()
        invariant
            i <= crews@.len(),
            c == cutters(crews@.take(i as int)),
        decreases crews.len() - i,
    {
        assert(crews@.take(i + 1).drop_last() =~= crews@.take(i as int));
        proof {
            lemma_cutters_bounded(crews@.take(i + 1));
        }
        if !crews[i].dead && !crews[i].role.scans() {
            c = c + 1;
        }
        i = i + 1;
    }
    assert(crews@.take(crews@.len() as int) =~= crews@);
    proof {
        lemma_cutters_bounded(crews@);
    }
    c * PER_CUTTER
}

} // verus!
