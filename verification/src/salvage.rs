//! A dead ship, and what a salvager can do about it.
//!
//! Three tiers: seven tenths recovered and it can be rebuilt where it lies;
//! half to seven tenths and only a yard can put it back, for a great deal
//! more research; under half and it is scrap.

use vstd::prelude::*;
use crate::bank::{Bank, DATA_CUBE};
use crate::refit::ESCORT_COST;
use crate::run::{Hulk, RunState};

verus! {

/// What a rebuild costs in materials, which is an escort's own price.
pub const REBUILD_COST: u32 = ESCORT_COST;

/// What a rebuild costs in data when the ship is reassembled rather than
/// worked out.
pub const REBUILD_DATA: u32 = DATA_CUBE;

/// How many times over the data is for a ship that has to be worked out.
pub const REBUILD_PENALTY: u32 = 3;

/// The share of a ship recovered: what came back, never more than all of
/// it, out of what it was. Nought for a ship that had no cells.
pub open spec fn recovered(h: Hulk) -> nat {
    if h.got <= h.whole {
        h.got as nat
    } else {
        h.whole as nat
    }
}

/// At least half of it is back.
pub open spec fn over_floor(h: Hulk) -> bool {
    h.whole > 0 && 2 * recovered(h) >= h.whole
}

/// At least seven tenths of it is back.
pub open spec fn in_field_spec(h: Hulk) -> bool {
    h.whole > 0 && 10 * recovered(h) >= 7 * h.whole
}

/// Whether `a` has more of itself back than `b`: the shares compared
/// exactly, as fractions.
pub open spec fn more_back(a: Hulk, b: Hulk) -> bool {
    recovered(a) * b.whole > recovered(b) * a.whole
}

pub open spec fn spec_rebuild_price(h: Hulk) -> Option<(u32, u32)> {
    if !over_floor(h) {
        None
    } else if in_field_spec(h) {
        Some((REBUILD_COST, REBUILD_DATA))
    } else {
        Some((REBUILD_COST, (REBUILD_DATA * REBUILD_PENALTY) as u32))
    }
}

impl Hulk {
    fn recovered(&self) -> (n: u64)
        ensures
            n == recovered(*self),
    {
        if self.got <= self.whole {
            self.got as u64
        } else {
            self.whole as u64
        }
    }

    /// What it would take to put it back together, as (materials, data), or
    /// nothing at all when too little of it was found.
    pub fn rebuild_price(&self) -> (p: Option<(u32, u32)>)
        ensures
            p == spec_rebuild_price(*self),
    {
        let back = self.recovered();
        let whole = self.whole as u64;
        if !(whole > 0 && 2 * back >= whole) {
            return None;
        }
        if 10 * back >= 7 * whole {
            Some((REBUILD_COST, REBUILD_DATA))
        } else {
            Some((REBUILD_COST, REBUILD_DATA * REBUILD_PENALTY))
        }
    }

    /// Whether it can be put back where it lies, rather than only at a yard.
    pub fn in_field(&self) -> (b: bool)
        ensures
            b == in_field_spec(*self),
    {
        let back = self.recovered();
        let whole = self.whole as u64;
        whole > 0 && 10 * back >= 7 * whole
    }

    fn more_back_than(&self, other: &Hulk) -> (b: bool)
        ensures
            b == more_back(*self, *other),
    {
        let a = self.recovered();
        let b = other.recovered();
        assert(a * other.whole <= u32::MAX * u32::MAX) by (nonlinear_arith)
            requires
                a <= u32::MAX,
                other.whole <= u32::MAX,
        ;
        assert(b * self.whole <= u32::MAX * u32::MAX) by (nonlinear_arith)
            requires
                b <= u32::MAX,
                self.whole <= u32::MAX,
        ;
        a * (other.whole as u64) > b * (self.whole as u64)
    }

    fn copy(&self) -> (h: Hulk)
        ensures
            h == *self,
    {
        Hulk { ship: self.ship, class: self.class.clone(), whole: self.whole, got: self.got }
    }
}

/// Whether `i` is the hulk a player pressing rebuild means: the one with
/// most of itself back of those that can be rebuilt in the field, and the
/// first of them in the run's list where two are level.
pub open spec fn is_best(hulks: Seq<Hulk>, i: int) -> bool {
    &&& 0 <= i < hulks.len()
    &&& in_field_spec(hulks[i])
    &&& forall|j: int|
        0 <= j < hulks.len() && in_field_spec(#[trigger] hulks[j]) ==> !more_back(hulks[j], hulks[i])
    &&& forall|j: int| 0 <= j < i && in_field_spec(#[trigger] hulks[j]) ==> more_back(hulks[i], hulks[j])
}

/// The hulk a rebuild would put back, if any can be.
pub fn best_in_field(hulks: &Vec<Hulk>) -> (r: Option<usize>)
    ensures
        match r {
            Some(i) => is_best(hulks@, i as int),
            None => forall|j: int| 0 <= j < hulks@.len() ==> !in_field_spec(#[trigger] hulks@[j]),
        },
{
    let mut best: Option<usize> = None;
    let mut k: usize = 0;
    while k < hulks.len()
        invariant
            k <= hulks@.len(),
            match best {
                Some(i) => {
                    &&& i < k
                    &&& in_field_spec(hulks@[i as int])
                    &&& forall|j: int|
                        0 <= j < k && in_field_spec(#[trigger] hulks@[j]) ==> !more_back(
                            hulks@[j],
                            hulks@[i as int],
                        )
                    &&& forall|j: int|
                        0 <= j < i && in_field_spec(#[trigger] hulks@[j]) ==> more_back(
                            hulks@[i as int],
                            hulks@[j],
                        )
                },
                None => forall|j: int| 0 <= j < k ==> !in_field_spec(#[trigger] hulks@[j]),
            },
        decreases hulks.len() - k,
    {
        if hulks[k].in_field() {
            match best {
                None => {
                    best = Some(k);
                },
                Some(i) => {
                    if hulks[k].more_back_than(&hulks[i]) {
                        proof {
                            lemma_more_back_transitive(hulks@);
                        }
                        best = Some(k);
                    } else {
                        proof {
                            lemma_more_back_total(hulks@[k as int], hulks@[i as int]);
                        }
                    }
                },
            }
        }
        k = k + 1;
    }
    best
}

proof fn lemma_more_back_total(a: Hulk, b: Hulk)
    ensures
        !more_back(a, b) ==> (more_back(b, a) || recovered(a) * b.whole == recovered(b)
            * a.whole),
{
}

proof fn lemma_more_back_transitive(hulks: Seq<Hulk>)
    ensures
        forall|x: int, y: int, z: int|
            0 <= x < hulks.len() && 0 <= y < hulks.len() && 0 <= z < hulks.len() && hulks[x].whole
                > 0 && hulks[y].whole > 0 && hulks[z].whole > 0 && !more_back(
                #[trigger] hulks[x],
                #[trigger] hulks[y],
            ) && more_back(#[trigger] hulks[z], hulks[y]) ==> more_back(hulks[z], hulks[x]),
        forall|x: int, y: int, z: int|
            0 <= x < hulks.len() && 0 <= y < hulks.len() && 0 <= z < hulks.len() && hulks[x].whole
                > 0 && hulks[y].whole > 0 && hulks[z].whole > 0 && more_back(
                #[trigger] hulks[y],
                #[trigger] hulks[x],
            ) && more_back(#[trigger] hulks[z], hulks[y]) ==> more_back(hulks[z], hulks[x]),
{
    assert forall|x: int, y: int, z: int|
        0 <= x < hulks.len() && 0 <= y < hulks.len() && 0 <= z < hulks.len() && hulks[x].whole > 0
            && hulks[y].whole > 0 && hulks[z].whole > 0 && !more_back(
            #[trigger] hulks[x],
            #[trigger] hulks[y],
        ) && more_back(#[trigger] hulks[z], hulks[y]) implies more_back(hulks[z], hulks[x]) by {
        lemma_ratio_chain(
            recovered(hulks[x]) as int,
            hulks[x].whole as int,
            recovered(hulks[y]) as int,
            hulks[y].whole as int,
            recovered(hulks[z]) as int,
            hulks[z].whole as int,
        );
    }
    assert forall|x: int, y: int, z: int|
        0 <= x < hulks.len() && 0 <= y < hulks.len() && 0 <= z < hulks.len() && hulks[x].whole > 0
            && hulks[y].whole > 0 && hulks[z].whole > 0 && more_back(
            #[trigger] hulks[y],
            #[trigger] hulks[x],
        ) && more_back(#[trigger] hulks[z], hulks[y]) implies more_back(hulks[z], hulks[x]) by {
        lemma_ratio_chain(
            recovered(hulks[x]) as int,
            hulks[x].whole as int,
            recovered(hulks[y]) as int,
            hulks[y].whole as int,
            recovered(hulks[z]) as int,
            hulks[z].whole as int,
        );
    }
}

/// a/b <= c/d and c/d < e/f give a/b < e/f, for positive denominators.
proof fn lemma_ratio_chain(a: int, b: int, c: int, d: int, e: int, f: int)
    requires
        b > 0,
        d > 0,
        f > 0,
        a >= 0,
        c >= 0,
        e >= 0,
    ensures
        a * d <= c * b && e * d > c * f ==> e * b > a * f,
{
    if a * d <= c * b && e * d > c * f {
        assert(a * d * f <= c * b * f) by (nonlinear_arith)
            requires
                a * d <= c * b,
                f > 0,
        ;
        assert(e * d * b > c * f * b) by (nonlinear_arith)
            requires
                e * d > c * f,
                b > 0,
        ;
        assert(c * b * f == c * f * b) by (nonlinear_arith);
        assert(a * d * f == a * f * d) by (nonlinear_arith);
        assert(e * d * b == e * b * d) by (nonlinear_arith);
        assert(e * b > a * f) by (nonlinear_arith)
            requires
                e * b * d > a * f * d,
                d > 0,
        ;
    }
}

/// What pressing rebuild came to.
#[derive(Debug)]
pub enum Rebuild {
    /// No hulk has enough of itself back to be rebuilt in the field.
    Nothing,
    /// The best one needs this much, and the bank has less.
    Short { class: String, materials: u32, data: u32 },
    /// It is under way again: this is what was put back.
    Rebuilt(Hulk),
}

/// The hulks other than the ones that were this ship.
pub open spec fn without_ship(hulks: Seq<Hulk>, ship: u32) -> Seq<Hulk>
    decreases hulks.len(),
{
    if hulks.len() == 0 {
        Seq::empty()
    } else {
        let rest = without_ship(hulks.drop_last(), ship);
        if hulks.last().ship == ship {
            rest
        } else {
            rest.push(hulks.last())
        }
    }
}

fn drop_ship(hulks: &Vec<Hulk>, ship: u32) -> (r: Vec<Hulk>)
    ensures
        r@ == without_ship(hulks@, ship),
{
    let mut r: Vec<Hulk> = Vec::new();
    let mut i: usize = 0;
    while i < hulks.len()
        invariant
            i <= hulks@.len(),
            r@ == without_ship(hulks@.take(i as int), ship),
        decreases hulks.len() - i,
    {
        assert(hulks@.take(i + 1).drop_last() =~= hulks@.take(i as int));
        if hulks[i].ship != ship {
            r.push(hulks[i].copy());
        }
        i = i + 1;
    }
    assert(hulks@.take(hulks@.len() as int) =~= hulks@);
    r
}

/// Put the best hulk back together where it lies, paying out of the bank
/// the fleet is carrying now: it flies again as one more escort and the run
/// stops remembering it as a wreck.
pub fn rebuild_in_field(run: &mut RunState, bank: &mut Bank) -> (out: Rebuild)
    requires
        old(run).escorts < u32::MAX,
    ensures
        match out {
            Rebuild::Nothing => {
                &&& forall|j: int|
                    0 <= j < old(run).hulks@.len() ==> !in_field_spec(#[trigger] old(run).hulks@[j])
                &&& *final(run) == *old(run)
                &&& *final(bank) == *old(bank)
            },
            Rebuild::Short { class, materials, data } => exists|i: int|
                {
                    &&& #[trigger] is_best(old(run).hulks@, i)
                    &&& spec_rebuild_price(old(run).hulks@[i]) == Some((materials, data))
                    &&& class@ == old(run).hulks@[i].class@
                    &&& (old(bank).materials < materials || old(bank).data < data)
                    &&& *final(run) == *old(run)
                    &&& *final(bank) == *old(bank)
                },
            Rebuild::Rebuilt(h) => exists|i: int|
                {
                    &&& #[trigger] is_best(old(run).hulks@, i)
                    &&& h == old(run).hulks@[i]
                    &&& spec_rebuild_price(h) matches Some((m, d))
                    &&& old(bank).materials >= m && old(bank).data >= d
                    &&& *final(bank) == (Bank {
                        materials: (old(bank).materials - m) as u32,
                        data: (old(bank).data - d) as u32,
                        ..*old(bank)
                    })
                    &&& final(run).hulks@ == without_ship(old(run).hulks@, h.ship)
                    &&& *final(run) == (RunState {
                        hulks: final(run).hulks,
                        escorts: (old(run).escorts + 1) as u32,
                        ..*old(run)
                    })
                },
        },
{
    let i = match best_in_field(&run.hulks) {
        Some(i) => i,
        None => return Rebuild::Nothing,
    };
    let hulk = run.hulks[i].copy();
    let (m, d) = match hulk.rebuild_price() {
        Some(p) => p,
        None => {
            // A hulk that is in the field is over the floor, so it has a price.
            assert(false);
            return Rebuild::Nothing;
        },
    };
    if bank.materials < m || bank.data < d {
        let class = hulk.class.clone();
        assert(is_best(old(run).hulks@, i as int));
        return Rebuild::Short { class, materials: m, data: d };
    }
    bank.materials = bank.materials - m;
    bank.data = bank.data - d;
    run.hulks = drop_ship(&run.hulks, hulk.ship);
    run.escorts = run.escorts + 1;
    assert(is_best(old(run).hulks@, i as int));
    Rebuild::Rebuilt(hulk)
}

/// One piece of a dead ship, and what has been taken off it.
#[derive(Clone, Debug)]
pub struct Remains {
    /// The ship it came off.
    pub ship: u32,
    pub class: String,
    /// Cells the whole ship had, before any of this.
    pub whole: u32,
    /// Cells a salvager has cut off this piece, and how many of those the
    /// run has already been told about.
    pub got: u32,
    pub banked: u32,
}

/// The first hulk of the run's that is this ship.
pub open spec fn first_of_ship(hulks: Seq<Hulk>, ship: u32, i: int) -> bool {
    &&& 0 <= i < hulks.len()
    &&& hulks[i].ship == ship
    &&& forall|j: int| 0 <= j < i ==> hulks[j].ship != ship
}

/// What a piece still owes the run.
pub open spec fn owed(p: Remains) -> u32 {
    if p.got >= p.banked {
        (p.got - p.banked) as u32
    } else {
        0
    }
}

/// Whether carrying a piece across stays inside a `u32`.
pub open spec fn record_fits(p: Remains, hulks: Seq<Hulk>) -> bool {
    forall|i: int| first_of_ship(hulks, p.ship, i) ==> hulks[i].got + owed(p) <= u32::MAX
}

/// The run's hulks once a piece has been carried across: its debt added to
/// the first hulk that is its ship, or a new hulk for a ship not yet on
/// the books.
pub open spec fn recorded(p: Remains, hulks: Seq<Hulk>) -> Seq<Hulk> {
    if owed(p) == 0 {
        hulks
    } else if exists|i: int| first_of_ship(hulks, p.ship, i) {
        let i = choose|i: int| first_of_ship(hulks, p.ship, i);
        hulks.update(i, Hulk { got: (hulks[i].got + owed(p)) as u32, ..hulks[i] })
    } else {
        hulks.push(Hulk { ship: p.ship, class: p.class, whole: p.whole, got: owed(p) })
    }
}

/// Carry what a salvager has cut off one piece into the run's memory of
/// the ship: only the difference since last time, so the total only ever
/// goes up and a piece that ages out takes nothing back with it.
pub fn record_piece(piece: &mut Remains, hulks: &mut Vec<Hulk>)
    requires
        record_fits(*old(piece), old(hulks)@),
    ensures
        final(hulks)@ == recorded(*old(piece), old(hulks)@),
        *final(piece) == (Remains { banked: if owed(*old(piece)) > 0 {
            old(piece).got
        } else {
            old(piece).banked
        }, ..*old(piece) }),
{
    let owe = piece.got.saturating_sub(piece.banked);
    if owe == 0 {
        return;
    }
    piece.banked = piece.got;
    let mut i: usize = 0;
    while i < hulks.len()
        invariant
            i <= hulks@.len(),
            *hulks == *old(hulks),
            *piece == (Remains { banked: old(piece).got, ..*old(piece) }),
            owe == owed(*old(piece)),
            owe > 0,
            record_fits(*old(piece), old(hulks)@),
            forall|j: int| 0 <= j < i ==> hulks@[j].ship != piece.ship,
        decreases hulks.len() - i,
    {
        if hulks[i].ship == piece.ship {
            proof {
                let k = choose|k: int| first_of_ship(old(hulks)@, old(piece).ship, k);
                assert(first_of_ship(old(hulks)@, old(piece).ship, i as int));
                assert(k == i as int) by {
                    if k < i as int {
                        assert(hulks@[k].ship != piece.ship);
                    } else if k > i as int {
                        assert(old(hulks)@[i as int].ship != old(piece).ship);
                    }
                }
            }
            let mut h = hulks[i].copy();
            h.got = h.got + owe;
            hulks.set(i, h);
            return;
        }
        i = i + 1;
    }
    assert(!exists|k: int| first_of_ship(old(hulks)@, old(piece).ship, k)) by {
        if exists|k: int| first_of_ship(old(hulks)@, old(piece).ship, k) {
            let k = choose|k: int| first_of_ship(old(hulks)@, old(piece).ship, k);
            assert(hulks@[k].ship != piece.ship);
        }
    }
    hulks.push(Hulk { ship: piece.ship, class: piece.class.clone(), whole: piece.whole, got: owe });
}

/// A piece once it has been carried across: everything it had got is banked.
pub open spec fn settled(p: Remains) -> Remains {
    Remains { banked: if owed(p) > 0 { p.got } else { p.banked }, ..p }
}

/// The run's hulks once every piece, in order, has been carried across.
pub open spec fn record_all(pieces: Seq<Remains>, hulks: Seq<Hulk>) -> Seq<Hulk>
    decreases pieces.len(),
{
    if pieces.len() == 0 {
        hulks
    } else {
        recorded(pieces.last(), record_all(pieces.drop_last(), hulks))
    }
}

/// Whether carrying every piece across, one after another, stays inside a
/// `u32` at each step.
pub open spec fn all_fit(pieces: Seq<Remains>, hulks: Seq<Hulk>) -> bool {
    forall|i: int|
        0 <= i < pieces.len() ==> record_fits(
            #[trigger] pieces[i],
            record_all(pieces.take(i), hulks),
        )
}

/// Carry what the salvagers have cut into the run's own memory of the ships,
/// piece by piece. What is carried is the difference since last time, so
/// the total only ever goes up and a wreck that ages out is a wreck nobody
/// can recover any more of.
pub fn record_salvage(pieces: &mut Vec<Remains>, hulks: &mut Vec<Hulk>)
    requires
        all_fit(old(pieces)@, old(hulks)@),
    ensures
        final(hulks)@ == record_all(old(pieces)@, old(hulks)@),
        final(pieces)@.len() == old(pieces)@.len(),
        forall|i: int|
            0 <= i < old(pieces)@.len() ==> #[trigger] final(pieces)@[i] == settled(
                old(pieces)@[i],
            ),
{
    let n = pieces.len();
    let mut i: usize = 0;
    proof {
        assert(old(pieces)@.take(0) =~= Seq::<Remains>::empty());
    }
    while i < n
        invariant
            n == old(pieces)@.len(),
            pieces@.len() == n,
            i <= n,
            all_fit(old(pieces)@, old(hulks)@),
            hulks@ == record_all(old(pieces)@.take(i as int), old(hulks)@),
            forall|k: int| 0 <= k < i ==> #[trigger] pieces@[k] == settled(old(pieces)@[k]),
            forall|k: int| i <= k < n ==> #[trigger] pieces@[k] == old(pieces)@[k],
        decreases n - i,
    {
        let ghost before = pieces@;
        let mut p = pieces.remove(i);
        proof {
            assert(p == old(pieces)@[i as int]);
            assert(record_fits(old(pieces)@[i as int], record_all(old(pieces)@.take(i as int), old(hulks)@)));
            assert(old(pieces)@.take(i + 1).drop_last() =~= old(pieces)@.take(i as int));
            assert(old(pieces)@.take(i + 1).last() == old(pieces)@[i as int]);
        }
        record_piece(&mut p, hulks);
        let ghost done = p;
        pieces.insert(i, p);
        proof {
            assert(pieces@ =~= before.update(i as int, done));
        }
        i = i + 1;
    }
    assert(old(pieces)@.take(n as int) =~= old(pieces)@);
}

/// The scars a hull carries when it jumps: the number of every dead cell,
/// in order.
pub open spec fn dead_cells(dead: Seq<bool>) -> Seq<u32>
    decreases dead.len(),
{
    if dead.len() == 0 {
        Seq::empty()
    } else {
        let rest = dead_cells(dead.drop_last());
        if dead.last() {
            rest.push((dead.len() - 1) as u32)
        } else {
            rest
        }
    }
}

/// Cell `n` is one of the scars.
pub open spec fn has_scar(scars: Seq<u32>, n: int) -> bool {
    exists|k: int| 0 <= k < scars.len() && scars[k] as int == n
}

/// A hull's cells with the run's scars put on: every scar that is a cell of
/// this hull is dead.
pub open spec fn scarred(dead: Seq<bool>, scars: Seq<u32>) -> Seq<bool> {
    Seq::new(dead.len(), |n: int| dead[n] || has_scar(scars, n))
}

/// Every scar read off a hull of at most `u32::MAX + 1` cells names one of
/// its dead cells, and every dead cell is among them.
pub proof fn lemma_dead_cells_are_the_dead(dead: Seq<bool>)
    requires
        dead.len() <= u32::MAX as int + 1,
    ensures
        forall|k: int|
            0 <= k < dead_cells(dead).len() ==> (#[trigger] dead_cells(dead)[k] as int) < dead.len()
                && dead[dead_cells(dead)[k] as int],
        forall|n: int| 0 <= n < dead.len() ==> (has_scar(dead_cells(dead), n) <==> #[trigger] dead[n]),
    decreases dead.len(),
{
    if dead.len() > 0 {
        let rest = dead.drop_last();
        lemma_dead_cells_are_the_dead(rest);
        let last = (dead.len() - 1) as int;
        let cells = dead_cells(dead);
        let before = dead_cells(rest);
        if dead.last() {
            assert(cells == before.push(last as u32));
            assert((last as u32) as int == last);
        } else {
            assert(cells == before);
        }
        assert forall|k: int| 0 <= k < cells.len() implies (#[trigger] cells[k] as int) < dead.len()
            && dead[cells[k] as int] by {
            if k < before.len() {
                assert(cells[k] == before[k]);
                assert(rest[before[k] as int] == dead[before[k] as int]);
            }
        }
        assert forall|n: int| 0 <= n < dead.len() implies (has_scar(cells, n) <==> #[trigger] dead[n]) by {
            if n < last {
                assert(rest[n] == dead[n]);
                if has_scar(before, n) {
                    let k = choose|k: int| 0 <= k < before.len() && before[k] as int == n;
                    assert(cells[k] == before[k]);
                }
                if has_scar(cells, n) {
                    let k = choose|k: int| 0 <= k < cells.len() && cells[k] as int == n;
                    if k < before.len() {
                        assert(cells[k] == before[k]);
                    } else {
                        assert(cells[k] as int == last);
                    }
                }
            } else {
                if dead[n] {
                    assert(cells[before.len() as int] as int == n);
                }
                if has_scar(cells, n) {
                    let k = choose|k: int| 0 <= k < cells.len() && cells[k] as int == n;
                    if k < before.len() {
                        assert(cells[k] == before[k]);
                        assert((before[k] as int) < rest.len());
                    }
                }
            }
        }
    }
}

/// The scars the run arrived with, put on the hull it arrived in: each scar
/// that is a cell of this hull is dead, and nothing else changes. They go on
/// dead and cold, so a ship that limped out of the last system does not
/// arrive with its holes white hot.
pub fn apply_scars(scars: &Vec<u32>, dead: &mut Vec<bool>)
    ensures
        final(dead)@ == scarred(old(dead)@, scars@),
{
    let mut i: usize = 0;
    while i < scars.len()
        invariant
            i <= scars@.len(),
            dead@.len() == old(dead)@.len(),
            forall|n: int|
                0 <= n < dead@.len() ==> #[trigger] dead@[n] == (old(dead)@[n] || has_scar(
                    scars@.subrange(0, i as int),
                    n,
                )),
        decreases scars@.len() - i,
    {
        let n = scars[i];
        let ghost prev = dead@;
        let ghost before = scars@.subrange(0, i as int);
        let ghost after = scars@.subrange(0, i + 1);
        if (n as usize) < dead.len() {
            dead.set(n as usize, true);
        }
        proof {
            assert(after =~= before.push(n));
            assert forall|m: int| 0 <= m < dead@.len() implies #[trigger] dead@[m] == (old(
                dead,
            )@[m] || has_scar(after, m)) by {
                assert(prev[m] == (old(dead)@[m] || has_scar(before, m)));
                if has_scar(before, m) {
                    let k = choose|k: int| 0 <= k < before.len() && before[k] as int == m;
                    assert(after[k] == before[k]);
                }
                if m == n as int {
                    assert(after[i as int] == n);
                }
                if has_scar(after, m) && !has_scar(before, m) {
                    let k = choose|k: int| 0 <= k < after.len() && after[k] as int == m;
                    if k < i {
                        assert(before[k] == after[k]);
                    }
                }
            }
        }
        i = i + 1;
    }
    assert(scars@.subrange(0, scars@.len() as int) =~= scars@);
    assert(dead@ =~= scarred(old(dead)@, scars@));
}

/// What the flagship is carrying when it jumps, read off its damage grid:
/// `dead` holds, cell by cell, whether the cell is gone.
pub fn scars_of(dead: &Vec<bool>) -> (s: Vec<u32>)
    ensures
        s@ == dead_cells(dead@),
{
    let mut s: Vec<u32> = Vec::new();
    let mut n: usize = 0;
    while n < dead.len()
        invariant
            n <= dead@.len(),
            s@ == dead_cells(dead@.take(n as int)),
        decreases dead.len() - n,
    {
        assert(dead@.take(n + 1).drop_last() =~= dead@.take(n as int));
        if dead[n] {
            s.push(n as u32);
        }
        n = n + 1;
    }
    assert(dead@.take(dead@.len() as int) =~= dead@);
    s
}

} // verus!
