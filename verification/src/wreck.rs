//! How a ship dies: when its reactor has gone, and nothing else.
//!
//! A share of the whole hull would be a hit point bar with extra steps: it
//! would not matter where the damage landed. A reactor that must actually be
//! reached makes the layout the damage model, and half of it is what it
//! takes. There is one way a ship dies, and a harness or a player who wants a
//! wreck takes the reactor out and lets this rule take the ship.

use vstd::prelude::*;
use crate::salvage::Remains;
use crate::state::{cue_spec, Outcome, Tick};

verus! {

/// A hull, as the reactor rule reads it.
pub struct Reactor {
    /// It has already gone critical, and is a wreck.
    pub dead_hull: bool,
    pub invulnerable: bool,
    /// The ship's own seed: a hull is given one at birth and nothing else
    /// shares it.
    pub seed: u32,
    /// The class it was built as; a carrier of the swarm's has none.
    pub class: Option<String>,
    /// How many cells the whole ship has.
    pub cells: usize,
    /// The cells its reactor is made of.
    pub core: Vec<usize>,
    /// Cell by cell, whether the cell is gone.
    pub dead: Vec<bool>,
}

/// Two hulls are the same ship: the same seed, class and size.
pub open spec fn same_ship(a: Reactor, b: Reactor) -> bool {
    a.seed == b.seed && a.class == b.class && a.cells == b.cells
}

/// Every reactor cell is a cell of the hull.
pub open spec fn core_in_hull(core: Seq<usize>, dead: Seq<bool>) -> bool {
    forall|i: int| 0 <= i < core.len() ==> core[i] < dead.len()
}

/// How many of the reactor's cells are gone.
pub open spec fn gone(core: Seq<usize>, dead: Seq<bool>) -> nat
    decreases core.len(),
{
    if core.len() == 0 {
        0
    } else {
        gone(core.drop_last(), dead) + if dead[core.last() as int] {
            1nat
        } else {
            0nat
        }
    }
}

/// How many cells of the hull are gone, anywhere.
pub open spec fn dead_count(dead: Seq<bool>) -> nat
    decreases dead.len(),
{
    if dead.len() == 0 {
        0
    } else {
        dead_count(dead.drop_last()) + if dead.last() {
            1nat
        } else {
            0nat
        }
    }
}

/// Half the reactor is gone: at least half of its cells, and there are some.
pub open spec fn half_gone(core: Seq<usize>, dead: Seq<bool>) -> bool {
    core.len() > 0 && 2 * gone(core, dead) >= core.len()
}

/// Whether a hull goes critical this tick: a live, hurtable hull whose
/// reactor is half gone, or any live, hurtable hull once `--explode` forces
/// it (a tick of nought forces nothing).
pub open spec fn critical(
    dead_hull: bool,
    invulnerable: bool,
    core: Seq<usize>,
    dead: Seq<bool>,
    explode: u32,
    tick: u32,
) -> bool {
    !dead_hull && !invulnerable && ((explode > 0 && tick >= explode) || half_gone(core, dead))
}

/// Cell `n` is one of the reactor's.
pub open spec fn in_core(core: Seq<usize>, n: int) -> bool {
    exists|k: int| 0 <= k < core.len() && core[k] == n
}

/// A hull's cells with the whole reactor taken out.
pub open spec fn without_core(dead: Seq<bool>, core: Seq<usize>) -> Seq<bool> {
    Seq::new(dead.len(), |n: int| dead[n] || in_core(core, n))
}

proof fn lemma_gone_bounded(core: Seq<usize>, dead: Seq<bool>)
    ensures
        gone(core, dead) <= core.len(),
    decreases core.len(),
{
    if core.len() > 0 {
        lemma_gone_bounded(core.drop_last(), dead);
    }
}

proof fn lemma_dead_count_bounded(dead: Seq<bool>)
    ensures
        dead_count(dead) <= dead.len(),
    decreases dead.len(),
{
    if dead.len() > 0 {
        lemma_dead_count_bounded(dead.drop_last());
    }
}

/// Where every reactor cell is gone, all of the reactor is gone.
pub proof fn lemma_all_gone(core: Seq<usize>, dead: Seq<bool>)
    requires
        forall|k: int| 0 <= k < core.len() ==> #[trigger] dead[core[k] as int],
    ensures
        gone(core, dead) == core.len(),
    decreases core.len(),
{
    if core.len() > 0 {
        let rest = core.drop_last();
        assert forall|k: int| 0 <= k < rest.len() implies #[trigger] dead[rest[k] as int] by {
            assert(rest[k] == core[k]);
        }
        lemma_all_gone(rest, dead);
        assert(dead[core[core.len() - 1] as int]);
    }
}

/// Taking the reactor out takes every cell of it.
pub proof fn lemma_without_core_takes_it_all(core: Seq<usize>, dead: Seq<bool>)
    requires
        core_in_hull(core, dead),
    ensures
        forall|k: int|
            0 <= k < core.len() ==> #[trigger] without_core(dead, core)[core[k] as int],
        without_core(dead, core).len() == dead.len(),
{
    assert forall|k: int|
        0 <= k < core.len() implies #[trigger] without_core(dead, core)[core[k] as int] by {
        assert(in_core(core, core[k] as int));
    }
}

/// The count of a reactor's lost cells reads only the reactor's cells.
pub proof fn lemma_same_core_same_gone(core: Seq<usize>, d1: Seq<bool>, d2: Seq<bool>)
    requires
        forall|k: int| 0 <= k < core.len() ==> d1[core[k] as int] == d2[core[k] as int],
    ensures
        gone(core, d1) == gone(core, d2),
    decreases core.len(),
{
    if core.len() > 0 {
        let rest = core.drop_last();
        assert forall|k: int|
            0 <= k < rest.len() implies d1[rest[k] as int] == d2[rest[k] as int] by {
            assert(rest[k] == core[k]);
        }
        lemma_same_core_same_gone(rest, d1, d2);
        assert(d1[core[core.len() - 1] as int] == d2[core[core.len() - 1] as int]);
    }
}

/// Count the reactor cells that are gone.
fn count_gone(core: &Vec<usize>, dead: &Vec<bool>) -> (n: usize)
    requires
        core_in_hull(core@, dead@),
    ensures
        n == gone(core@, dead@),
{
    let mut n: usize = 0;
    let mut i: usize = 0;
    while i < core.len()
        invariant
            i <= core@.len(),
            core_in_hull(core@, dead@),
            n == gone(core@.subrange(0, i as int), dead@),
            n <= i,
        decreases core@.len() - i,
    {
        proof {
            assert(core@.subrange(0, i + 1).drop_last() =~= core@.subrange(0, i as int));
        }
        if dead[core[i]] {
            n = n + 1;
        }
        i = i + 1;
    }
    assert(core@.subrange(0, core@.len() as int) =~= core@);
    n
}

/// Count the cells of the hull that are gone.
fn count_dead(dead: &Vec<bool>) -> (n: usize)
    ensures
        n == dead_count(dead@),
{
    let mut n: usize = 0;
    let mut i: usize = 0;
    while i < dead.len()
        invariant
            i <= dead@.len(),
            n == dead_count(dead@.subrange(0, i as int)),
            n <= i,
        decreases dead@.len() - i,
    {
        proof {
            assert(dead@.subrange(0, i + 1).drop_last() =~= dead@.subrange(0, i as int));
        }
        if dead[i] {
            n = n + 1;
        }
        i = i + 1;
    }
    assert(dead@.subrange(0, dead@.len() as int) =~= dead@);
    n
}

/// The salvage record every piece of a wreck carries: the ship it came off,
/// its class, and the cells the whole ship had, with nothing yet got or
/// banked. A carrier has no class and cannot be rebuilt, so its pieces
/// carry none.
pub open spec fn spec_wreck_remains(hull: Reactor) -> Option<Remains> {
    match hull.class {
        None => None,
        Some(c) => Some(
            Remains { ship: hull.seed, class: c, whole: hull.cells as u32, got: 0, banked: 0 },
        ),
    }
}

/// What each piece of a hull that has gone critical remembers of the ship.
pub fn wreck_remains(hull: &Reactor) -> (r: Option<Remains>)
    ensures
        r == spec_wreck_remains(*hull),
{
    match &hull.class {
        None => None,
        Some(c) => Some(
            Remains { ship: hull.seed, class: c.clone(), whole: hull.cells as u32, got: 0, banked: 0 },
        ),
    }
}

/// What the reactor rule made of a hull this tick.
pub enum Fate {
    /// It holds.
    Holds,
    /// It went critical; every piece of the wreck carries this salvage
    /// record, or none for a hull with no class.
    Critical(Option<Remains>),
}

/// The reactor rule, for one hull this tick: whether it goes critical, and
/// if it does, the wreck it becomes, the record its pieces carry, and the
/// verdict's ledger. A player hull gone is counted with every cell it had
/// lost by then, because the wreck is not asked again; a carrier of the
/// swarm's is not the player's loss.
pub fn go_critical(
    hull: &mut Reactor,
    hive: bool,
    explode: u32,
    tick: u32,
    outcome: &mut Outcome,
) -> (fate: Fate)
    requires
        core_in_hull(old(hull).core@, old(hull).dead@),
        old(outcome).ships_lost < u32::MAX,
        old(outcome).cells_lost + old(hull).dead@.len() <= usize::MAX,
    ensures
        (fate is Critical) == critical(
            old(hull).dead_hull,
            old(hull).invulnerable,
            old(hull).core@,
            old(hull).dead@,
            explode,
            tick,
        ),
        fate matches Fate::Critical(r) ==> r == spec_wreck_remains(*old(hull)),
        final(hull).dead_hull == (old(hull).dead_hull || fate is Critical),
        final(hull).invulnerable == old(hull).invulnerable,
        same_ship(*final(hull), *old(hull)),
        final(hull).core@ == old(hull).core@,
        final(hull).dead@ == old(hull).dead@,
        (fate is Critical && !hive) ==> *final(outcome) == (Outcome {
            ships_lost: (old(outcome).ships_lost + 1) as u32,
            cells_lost: (old(outcome).cells_lost + dead_count(old(hull).dead@)) as usize,
            ..*old(outcome)
        }),
        !(fate is Critical && !hive) ==> *final(outcome) == *old(outcome),
{
    if hull.dead_hull || hull.invulnerable {
        return Fate::Holds;
    }
    let core = hull.core.len();
    let gone_now = count_gone(&hull.core, &hull.dead);
    proof {
        lemma_gone_bounded(hull.core@, hull.dead@);
    }
    let forced = explode > 0 && tick >= explode;
    let half = core > 0 && gone_now >= core - gone_now;
    if !forced && !half {
        return Fate::Holds;
    }
    hull.dead_hull = true;
    if !hive {
        let lost = count_dead(&hull.dead);
        proof {
            lemma_dead_count_bounded(hull.dead@);
        }
        outcome.ships_lost = outcome.ships_lost + 1;
        outcome.cells_lost = outcome.cells_lost + lost;
    }
    Fate::Critical(wreck_remains(hull))
}

/// Take the whole reactor out of a hull: every cell of it is gone.
fn kill_core(hull: &mut Reactor)
    requires
        core_in_hull(old(hull).core@, old(hull).dead@),
    ensures
        final(hull).dead@ == without_core(old(hull).dead@, old(hull).core@),
        final(hull).core@ == old(hull).core@,
        final(hull).dead_hull == old(hull).dead_hull,
        final(hull).invulnerable == old(hull).invulnerable,
        same_ship(*final(hull), *old(hull)),
{
    let mut i: usize = 0;
    while i < hull.core.len()
        invariant
            i <= hull.core@.len(),
            hull.core@ == old(hull).core@,
            hull.dead_hull == old(hull).dead_hull,
            hull.invulnerable == old(hull).invulnerable,
            same_ship(*hull, *old(hull)),
            core_in_hull(hull.core@, old(hull).dead@),
            hull.dead@.len() == old(hull).dead@.len(),
            forall|n: int|
                0 <= n < hull.dead@.len() ==> hull.dead@[n] == (old(hull).dead@[n] || in_core(
                    hull.core@.subrange(0, i as int),
                    n,
                )),
        decreases hull.core@.len() - i,
    {
        let c = hull.core[i];
        let ghost prev = hull.dead@;
        hull.dead.set(c, true);
        proof {
            assert(hull.dead@ == prev.update(c as int, true));
            let before = hull.core@.subrange(0, i as int);
            let after = hull.core@.subrange(0, i + 1);
            assert(after =~= before.push(c));
            assert forall|n: int| 0 <= n < hull.dead@.len() implies hull.dead@[n] == (old(
                hull,
            ).dead@[n] || in_core(after, n)) by {
                if in_core(before, n) {
                    let k = choose|k: int| 0 <= k < before.len() && before[k] == n;
                    assert(after[k] == n);
                }
                if n == c as int {
                    assert(after[i as int] == n);
                }
                if in_core(after, n) && !in_core(before, n) {
                    let k = choose|k: int| 0 <= k < after.len() && after[k] == n;
                    if k < i {
                        assert(before[k] == n);
                    }
                }
            }
        }
        i = i + 1;
    }
    assert(hull.core@.subrange(0, hull.core@.len() as int) =~= hull.core@);
    assert(hull.dead@ =~= without_core(old(hull).dead@, old(hull).core@));
}

/// Whether hull `i` is among the picked.
pub open spec fn picked_has(picked: Seq<usize>, i: int) -> bool {
    exists|j: int| 0 <= j < picked.len() && picked[j] == i
}

/// How many of the picks land on a hull that is not a wreck yet; a hull
/// picked twice is counted twice, as a second press on it is.
pub open spec fn live_picks(hulls: Seq<Reactor>, picked: Seq<usize>) -> nat
    decreases picked.len(),
{
    if picked.len() == 0 {
        0
    } else {
        let p = picked.last();
        live_picks(hulls, picked.drop_last()) + if p < hulls.len() && !hulls[p as int].dead_hull {
            1nat
        } else {
            0nat
        }
    }
}

/// A hull's cells once the picked ships have been scuttled.
pub open spec fn after_scuttle(o: Reactor, picked: Seq<usize>, i: int) -> Seq<bool> {
    if picked_has(picked, i) && !o.dead_hull {
        without_core(o.dead@, o.core@)
    } else {
        o.dead@
    }
}

/// `now` is `before` with the picked ships scuttled, and nothing else moved.
pub open spec fn scuttled(before: Seq<Reactor>, now: Seq<Reactor>, picked: Seq<usize>) -> bool {
    &&& now.len() == before.len()
    &&& forall|i: int|
        0 <= i < before.len() ==> {
            &&& #[trigger] now[i].core@ == before[i].core@
            &&& now[i].dead_hull == before[i].dead_hull
            &&& now[i].invulnerable == before[i].invulnerable
            &&& same_ship(now[i], before[i])
            &&& now[i].dead@ == after_scuttle(before[i], picked, i)
        }
}

proof fn lemma_without_core_twice(dead: Seq<bool>, core: Seq<usize>)
    ensures
        without_core(without_core(dead, core), core) == without_core(dead, core),
{
    assert(without_core(without_core(dead, core), core) =~= without_core(dead, core));
}

/// Take the reactor out of every picked ship, and answer how many. It goes
/// through the reactor rather than despawning anything, so a scuttled ship
/// leaves the same wreck the swarm would have made of it. A pick that names
/// no hull, or a wreck, is passed over.
pub fn scuttle(hulls: &mut Vec<Reactor>, picked: &Vec<usize>) -> (n: usize)
    requires
        forall|i: int|
            0 <= i < old(hulls)@.len() ==> core_in_hull(
                #[trigger] old(hulls)@[i].core@,
                old(hulls)@[i].dead@,
            ),
    ensures
        n == live_picks(old(hulls)@, picked@),
        scuttled(old(hulls)@, final(hulls)@, picked@),
{
    let mut n: usize = 0;
    let mut j: usize = 0;
    while j < picked.len()
        invariant
            j <= picked@.len(),
            n == live_picks(old(hulls)@, picked@.subrange(0, j as int)),
            n <= j,
            forall|i: int|
                0 <= i < old(hulls)@.len() ==> core_in_hull(
                    #[trigger] old(hulls)@[i].core@,
                    old(hulls)@[i].dead@,
                ),
            scuttled(old(hulls)@, hulls@, picked@.subrange(0, j as int)),
        decreases picked@.len() - j,
    {
        let p = picked[j];
        let ghost before = picked@.subrange(0, j as int);
        let ghost after = picked@.subrange(0, j + 1);
        proof {
            assert(after.drop_last() =~= before);
            assert(after =~= before.push(p));
            assert forall|i: int| i != p as int implies picked_has(after, i) == picked_has(
                before,
                i,
            ) by {
                if picked_has(after, i) {
                    let k = choose|k: int| 0 <= k < after.len() && after[k] == i;
                    assert(k < before.len());
                    assert(before[k] == i);
                }
                if picked_has(before, i) {
                    let k = choose|k: int| 0 <= k < before.len() && before[k] == i;
                    assert(after[k] == i);
                }
            }
            assert(picked_has(after, p as int)) by {
                assert(after[j as int] == p);
            }
        }
        let ghost prev = hulls@;
        proof {
            if p < hulls@.len() {
                assert(hulls@[p as int].core@ == old(hulls)@[p as int].core@);
            }
            assert(live_picks(old(hulls)@, after) == live_picks(old(hulls)@, before) + if p
                < old(hulls)@.len() && !old(hulls)@[p as int].dead_hull {
                1nat
            } else {
                0nat
            });
        }
        if p < hulls.len() && !hulls[p].dead_hull {
            let mut hull = hulls.remove(p);
            proof {
                assert(hull == prev[p as int]);
                assert(core_in_hull(old(hulls)@[p as int].core@, old(hulls)@[p as int].dead@));
                lemma_without_core_twice(old(hulls)@[p as int].dead@, old(hulls)@[p as int].core@);
            }
            kill_core(&mut hull);
            let ghost done = hull;
            hulls.insert(p, hull);
            proof {
                assert(hulls@ =~= prev.update(p as int, done));
            }
            n = n + 1;
        }
        proof {
            assert forall|i: int| 0 <= i < old(hulls)@.len() implies {
                &&& #[trigger] hulls@[i].core@ == old(hulls)@[i].core@
                &&& hulls@[i].dead_hull == old(hulls)@[i].dead_hull
                &&& hulls@[i].invulnerable == old(hulls)@[i].invulnerable
                &&& same_ship(hulls@[i], old(hulls)@[i])
                &&& hulls@[i].dead@ == after_scuttle(old(hulls)@[i], after, i)
            } by {
                assert(prev[i].core@ == old(hulls)@[i].core@);
                if i == p as int {
                    lemma_without_core_twice(old(hulls)@[i].dead@, old(hulls)@[i].core@);
                }
            }
            assert(scuttled(old(hulls)@, hulls@, after));
        }
        j = j + 1;
    }
    assert(picked@.subrange(0, picked@.len() as int) =~= picked@);
    n
}

/// `--wreck TICK`: at that tick, once, take the reactor out of the first
/// escort that is not a wreck already, so a headless run has a wreck for a
/// salvager to work. Answers which escort, if one was.
pub fn script_wreck(tick: &Tick, wreck: u32, fired: &mut bool, escorts: &mut Vec<Reactor>) -> (hit:
    Option<usize>)
    requires
        forall|i: int|
            0 <= i < old(escorts)@.len() ==> core_in_hull(
                #[trigger] old(escorts)@[i].core@,
                old(escorts)@[i].dead@,
            ),
    ensures
        wreck == 0 ==> *final(fired) == *old(fired),
        wreck != 0 ==> *final(fired) == cue_spec(tick.tick, Some(wreck), *old(fired)).1,
        final(escorts)@.len() == old(escorts)@.len(),
        hit is None ==> final(escorts)@ == old(escorts)@,
        hit is None && wreck != 0 && cue_spec(tick.tick, Some(wreck), *old(fired)).0 ==> forall|
            i: int,
        | 0 <= i < old(escorts)@.len() ==> #[trigger] old(escorts)@[i].dead_hull,
        hit is Some ==> wreck != 0 && cue_spec(tick.tick, Some(wreck), *old(fired)).0,
        hit matches Some(k) ==> k < old(escorts)@.len() && !old(escorts)@[k as int].dead_hull,
        hit matches Some(k) ==> forall|i: int| 0 <= i < k ==> #[trigger] old(escorts)@[i].dead_hull,
        hit matches Some(k) ==> final(escorts)@[k as int].dead@ == without_core(
            old(escorts)@[k as int].dead@,
            old(escorts)@[k as int].core@,
        ),
        hit matches Some(k) ==> final(escorts)@[k as int].core@ == old(escorts)@[k as int].core@
            && final(escorts)@[k as int].dead_hull == old(escorts)@[k as int].dead_hull
            && final(escorts)@[k as int].invulnerable == old(escorts)@[k as int].invulnerable
            && same_ship(final(escorts)@[k as int], old(escorts)@[k as int]),
        hit matches Some(k) ==> forall|i: int|
            0 <= i < old(escorts)@.len() && i != k ==> #[trigger] final(escorts)@[i] == old(
                escorts,
            )@[i],
{
    if wreck == 0 || !tick.cue(Some(wreck), fired) {
        return None;
    }
    let ghost was = *old(fired);
    let mut k: usize = 0;
    while k < escorts.len()
        invariant
            wreck != 0,
            was == *old(fired),
            cue_spec(tick.tick, Some(wreck), was).0,
            *fired == cue_spec(tick.tick, Some(wreck), was).1,
            forall|i: int|
                0 <= i < old(escorts)@.len() ==> core_in_hull(
                    #[trigger] old(escorts)@[i].core@,
                    old(escorts)@[i].dead@,
                ),
            escorts@ == old(escorts)@,
            k <= escorts@.len(),
            forall|i: int| 0 <= i < k ==> #[trigger] escorts@[i].dead_hull,
        decreases escorts@.len() - k,
    {
        if !escorts[k].dead_hull {
            let mut hull = escorts.remove(k);
            proof {
                assert(hull == old(escorts)@[k as int]);
                assert(core_in_hull(old(escorts)@[k as int].core@, old(escorts)@[k as int].dead@));
            }
            kill_core(&mut hull);
            let ghost done = hull;
            escorts.insert(k, hull);
            proof {
                assert(escorts@ =~= old(escorts)@.update(k as int, done));
            }
            proof {
                assert forall|i: int|
                    0 <= i < old(escorts)@.len() && i != k implies #[trigger] escorts@[i] == old(
                    escorts,
                )@[i] by {
                    if i < k {
                    } else {
                    }
                }
            }
            return Some(k);
        }
        k = k + 1;
    }
    None
}

} // verus!
