//! A ship that builds ships: the one door every order goes through.
//!
//! The queue and what an order costs belong to the yard; what is decided
//! here is whether an order is taken at all. Three conditions, asked once rather
//! than once per button: the bank covers the whole price, the wing has a
//! station left, and a module has a bay to sit in.

use vstd::prelude::*;
use crate::bank::{covers, spent, Bank, Yield};
use crate::state::{cue_spec, Tick};
use crate::text::same;

verus! {

broadcast use vstd::string::group_string_axioms;

/// The bank a skirmish opens with, in materials. A skirmish has no economy,
/// so without a figure here its build menu would be rows nobody could press.
pub const SKIRMISH_BANK: u32 = 3000;

/// How many escorts a wing holds, and how many one press of R brings.
pub const WING_MAX: u32 = 6;

pub const WING_WAVE: u32 = 2;

/// What an order on the yard's queue is, as the yard's door reads it.
#[derive(Clone, Copy, PartialEq, Eq, Debug, Structural)]
pub enum OrderKind {
    /// A place in the squadron.
    Fighter,
    /// A hull that flies, and takes a station of the wing.
    Hull,
    /// A hull that stands where it is put, and takes a station all the same.
    Platform,
    /// A module fitted to the flagship, which needs a bay.
    Fit,
}

/// Whether an order takes a station of the wing.
pub open spec fn takes_station(k: OrderKind) -> bool {
    k == OrderKind::Hull || k == OrderKind::Platform
}

/// How many stations the queue has promised already.
pub open spec fn coming(q: Seq<OrderKind>) -> nat
    decreases q.len(),
{
    if q.len() == 0 {
        0
    } else {
        coming(q.drop_last()) + if takes_station(q.last()) {
            1nat
        } else {
            0nat
        }
    }
}

/// Whether the door lets an order through: a station left for a hull or a
/// platform (the queue counts too, or a player could order ten and watch six
/// arrive), a bay for a module, and the whole price in the bank.
pub open spec fn accepts(
    q: Seq<OrderKind>,
    bank: Bank,
    order: OrderKind,
    price: Yield,
    room: bool,
    out: u32,
) -> bool {
    &&& takes_station(order) ==> out + coming(q) < WING_MAX
    &&& order == OrderKind::Fit ==> room
    &&& covers(bank, price)
}

/// Count the stations the queue has promised.
fn count_coming(queue: &Vec<OrderKind>) -> (n: u64)
    ensures
        n == coming(queue@),
{
    let mut n: u64 = 0;
    let mut i: usize = 0;
    while i < queue.len()
        invariant
            i <= queue@.len(),
            n == coming(queue@.subrange(0, i as int)),
            n <= i,
        decreases queue@.len() - i,
    {
        proof {
            assert(queue@.subrange(0, i + 1).drop_last() =~= queue@.subrange(0, i as int));
        }
        let k = queue[i];
        if k == OrderKind::Hull || k == OrderKind::Platform {
            n = n + 1;
        }
        i = i + 1;
    }
    assert(queue@.subrange(0, queue@.len() as int) =~= queue@);
    n
}

/// Put one order on a yard's queue, and take what it costs. `price` is what
/// the order costs, `room` whether the flagship has a bay left for it (which
/// only a module asks), and `out` how many escorts are already flying.
///
/// Nothing is taken from a bank that cannot cover the price, and nothing is
/// queued when any condition fails.
pub fn order_one(
    queue: &mut Vec<OrderKind>,
    bank: &mut Bank,
    order: OrderKind,
    price: Yield,
    room: bool,
    out: u32,
) -> (ok: bool)
    ensures
        ok == accepts(old(queue)@, *old(bank), order, price, room, out),
        ok ==> final(queue)@ == old(queue)@.push(order),
        ok ==> *final(bank) == spent(*old(bank), price),
        !ok ==> final(queue)@ == old(queue)@,
        !ok ==> *final(bank) == *old(bank),
{
    if order == OrderKind::Hull || order == OrderKind::Platform {
        let n = count_coming(queue);
        if n >= WING_MAX as u64 || out as u64 + n >= WING_MAX as u64 {
            return false;
        }
    }
    if order == OrderKind::Fit && !room {
        return false;
    }
    if !bank.spend(price) {
        return false;
    }
    queue.push(order);
    true
}

/// The queue, the bank and the count after `k` presses of the same order
/// through the door, the first refusal ending the wave: each press takes a
/// hull only while every press before it was taken.
pub open spec fn wave(
    q: Seq<OrderKind>,
    b: Bank,
    price: Yield,
    out: u32,
    k: nat,
) -> (Seq<OrderKind>, Bank, nat)
    decreases k,
{
    if k == 0 {
        (q, b, 0)
    } else {
        let (q1, b1, n1) = wave(q, b, price, out, (k - 1) as nat);
        if n1 == k - 1 && accepts(q1, b1, OrderKind::Hull, price, true, out) {
            (q1.push(OrderKind::Hull), spent(b1, price), n1 + 1)
        } else {
            (q1, b1, n1)
        }
    }
}

proof fn lemma_wave_stops(q: Seq<OrderKind>, b: Bank, price: Yield, out: u32, k: nat, m: nat)
    requires
        k <= m,
        wave(q, b, price, out, k).2 < k,
    ensures
        wave(q, b, price, out, m) == wave(q, b, price, out, k),
    decreases m - k,
{
    if k < m {
        lemma_wave_counts(q, b, price, out, k);
        assert(wave(q, b, price, out, k + 1) == wave(q, b, price, out, k));
        lemma_wave_stops(q, b, price, out, k + 1, m);
    }
}

proof fn lemma_wave_counts(q: Seq<OrderKind>, b: Bank, price: Yield, out: u32, k: nat)
    ensures
        wave(q, b, price, out, k).2 <= k,
    decreases k,
{
    if k > 0 {
        lemma_wave_counts(q, b, price, out, (k - 1) as nat);
    }
}

/// R orders a wave: up to two more of the wing's class onto the queue,
/// through the same door as every other order, stopping at the first it
/// refuses. Answers how many were taken.
pub fn call_reinforcements(
    queue: &mut Vec<OrderKind>,
    bank: &mut Bank,
    price: Yield,
    out: u32,
) -> (n: u32)
    ensures
        (final(queue)@, *final(bank), n as nat) == wave(
            old(queue)@,
            *old(bank),
            price,
            out,
            WING_WAVE as nat,
        ),
{
    let mut n: u32 = 0;
    while n < WING_WAVE
        invariant_except_break
            n <= WING_WAVE,
            (queue@, *bank, n as nat) == wave(old(queue)@, *old(bank), price, out, n as nat),
        ensures
            (queue@, *bank, n as nat) == wave(
                old(queue)@,
                *old(bank),
                price,
                out,
                WING_WAVE as nat,
            ),
        decreases WING_WAVE - n,
    {
        if !order_one(queue, bank, OrderKind::Hull, price, true, out) {
            proof {
                lemma_wave_stops(old(queue)@, *old(bank), price, out, n as nat + 1, WING_WAVE as nat);
            }
            break;
        }
        n = n + 1;
    }
    n
}

/// A ship the yard finished, and the station of the wing it takes.
#[derive(Clone, Copy, PartialEq, Eq, Debug, Structural)]
pub enum Arrival {
    /// A hull, flown in the way a reinforcement is.
    Hull(u32),
    /// A platform, put where it will stand.
    Platform(u32),
}

/// Where what the yard finished goes, in order: each hull takes the next
/// station of the wing, and a platform stands at the station that is next
/// without taking it from the hulls. A fighter is a place in the squadron
/// and a module is fitted already, so neither arrives anywhere.
pub open spec fn arrivals(done: Seq<OrderKind>, out: nat) -> Seq<Arrival>
    decreases done.len(),
{
    if done.len() == 0 {
        Seq::empty()
    } else {
        let first = done[0];
        let rest = done.subrange(1, done.len() as int);
        if first == OrderKind::Hull {
            seq![Arrival::Hull(out as u32)] + arrivals(rest, out + 1)
        } else if first == OrderKind::Platform {
            seq![Arrival::Platform(out as u32)] + arrivals(rest, out)
        } else {
            arrivals(rest, out)
        }
    }
}

/// How many fighters a batch of finished orders adds to the squadron.
pub open spec fn fighters_in(done: Seq<OrderKind>) -> nat
    decreases done.len(),
{
    if done.len() == 0 {
        0
    } else {
        fighters_in(done.subrange(1, done.len() as int)) + if done[0] == OrderKind::Fighter {
            1nat
        } else {
            0nat
        }
    }
}

/// How many hulls a batch of finished orders holds.
pub open spec fn hulls_in(done: Seq<OrderKind>) -> nat
    decreases done.len(),
{
    if done.len() == 0 {
        0
    } else {
        hulls_in(done.subrange(1, done.len() as int)) + if done[0] == OrderKind::Hull {
            1nat
        } else {
            0nat
        }
    }
}

proof fn lemma_counts_bounded(done: Seq<OrderKind>)
    ensures
        fighters_in(done) <= done.len(),
        hulls_in(done) <= done.len(),
    decreases done.len(),
{
    if done.len() > 0 {
        lemma_counts_bounded(done.subrange(1, done.len() as int));
    }
}

proof fn lemma_counts_split(done: Seq<OrderKind>, i: int)
    requires
        0 <= i < done.len(),
    ensures
        fighters_in(done.subrange(i, done.len() as int)) == fighters_in(
            done.subrange(i + 1, done.len() as int),
        ) + if done[i] == OrderKind::Fighter {
            1nat
        } else {
            0nat
        },
        hulls_in(done.subrange(i, done.len() as int)) == hulls_in(
            done.subrange(i + 1, done.len() as int),
        ) + if done[i] == OrderKind::Hull {
            1nat
        } else {
            0nat
        },
{
    let tail = done.subrange(i, done.len() as int);
    assert(tail.subrange(1, tail.len() as int) =~= done.subrange(i + 1, done.len() as int));
}

/// Put what a yard finished this tick into the world: the squadron grows by
/// every fighter finished and by the places a hangar fitted this tick opened
/// (`hangar_before` to `hangar_after`), and each hull and platform arrives at
/// its station, counted on from the `out` escorts already flying. Answers the
/// arrivals, in the order they were finished.
pub fn work_yards(
    done: &Vec<OrderKind>,
    hangar_before: u32,
    hangar_after: u32,
    fighters: &mut u32,
    out: u32,
) -> (arrived: Vec<Arrival>)
    requires
        hangar_before <= hangar_after,
        *old(fighters) + (hangar_after - hangar_before) + done@.len() <= u32::MAX,
        out + done@.len() <= u32::MAX,
    ensures
        *final(fighters) == *old(fighters) + (hangar_after - hangar_before) + fighters_in(done@),
        arrived@ == arrivals(done@, out as nat),
{
    *fighters = *fighters + (hangar_after - hangar_before);
    let ghost start = *fighters;
    let mut arrived: Vec<Arrival> = Vec::new();
    let mut n: u32 = out;
    let mut i: usize = 0;
    proof {
        assert(done@.subrange(0, done@.len() as int) =~= done@);
        lemma_counts_bounded(done@);
    }
    while i < done.len()
        invariant
            i <= done@.len(),
            out + done@.len() <= u32::MAX,
            start + done@.len() <= u32::MAX,
            n == out + hulls_in(done@) - hulls_in(done@.subrange(i as int, done@.len() as int)),
            hulls_in(done@.subrange(i as int, done@.len() as int)) <= done@.len() - i,
            fighters_in(done@.subrange(i as int, done@.len() as int)) <= done@.len() - i,
            hulls_in(done@) <= done@.len(),
            fighters_in(done@) <= done@.len(),
            *fighters + fighters_in(done@.subrange(i as int, done@.len() as int)) == start
                + fighters_in(done@),
            arrived@ + arrivals(done@.subrange(i as int, done@.len() as int), n as nat)
                == arrivals(done@, out as nat),
        decreases done@.len() - i,
    {
        let ghost tail = done@.subrange(i as int, done@.len() as int);
        proof {
            lemma_counts_split(done@, i as int);
            lemma_counts_bounded(done@.subrange(i + 1, done@.len() as int));
            assert(tail.subrange(1, tail.len() as int) =~= done@.subrange(
                i + 1,
                done@.len() as int,
            ));
            assert(tail[0] == done@[i as int]);
        }
        let k = done[i];
        if k == OrderKind::Fighter {
            *fighters = *fighters + 1;
        } else if k == OrderKind::Hull {
            arrived.push(Arrival::Hull(n));
            proof {
                assert(arrived@ + arrivals(done@.subrange(i + 1, done@.len() as int), (n + 1) as nat) =~= (
                arrived@.drop_last() + seq![Arrival::Hull(n)]) + arrivals(
                    done@.subrange(i + 1, done@.len() as int),
                    (n + 1) as nat,
                ));
            }
            n = n + 1;
        } else if k == OrderKind::Platform {
            arrived.push(Arrival::Platform(n));
            proof {
                assert(arrived@ + arrivals(done@.subrange(i + 1, done@.len() as int), n as nat)
                    =~= (arrived@.drop_last() + seq![Arrival::Platform(n)]) + arrivals(
                    done@.subrange(i + 1, done@.len() as int),
                    n as nat,
                ));
            }
        }
        i = i + 1;
    }
    proof {
        assert(done@.subrange(done@.len() as int, done@.len() as int) =~= Seq::<OrderKind>::empty());
        assert(arrived@ + Seq::<Arrival>::empty() =~= arrived@);
    }
    arrived
}

/// What the harness presses for `--build WHAT,TICK`: nothing until the tick
/// comes round, then once, a fighter for the one word that is not a hull's
/// class and the hull named otherwise. A tick of nought is no order at all.
pub fn script_build(tick: &Tick, build: u32, what: &str, fired: &mut bool) -> (o: Option<
    OrderKind,
>)
    ensures
        build == 0 ==> o is None && *final(fired) == *old(fired),
        build != 0 ==> *final(fired) == cue_spec(tick.tick, Some(build), *old(fired)).1,
        build != 0 ==> (o is Some <==> cue_spec(tick.tick, Some(build), *old(fired)).0),
        o is Some ==> (o == Some(OrderKind::Fighter) <==> what@ == "fighter"@),
        o is Some ==> (o == Some(OrderKind::Hull) <==> what@ != "fighter"@),
{
    if build == 0 || !tick.cue(Some(build), fired) {
        return None;
    }
    if same(what, "fighter") {
        Some(OrderKind::Fighter)
    } else {
        Some(OrderKind::Hull)
    }
}

} // verus!
