//! What holds of the library as a whole: the promises that relate one call
//! to another, or that hold of every input.

use vstd::prelude::*;
use crate::args::{
    parse_from, step, step_2, step_3, step_4, step_5, step_6, step_7, step_8, ArgsView,
};
use crate::bank::{after_jump, covers, spent, taken, Bank, Yield, DATA_CUBE, JUMP_FUEL, ORE_CUBE};
use crate::field::{
    doomed, doomed_ids, kept, lemma_doomed_ids_append, lemma_doomed_ids_are_the_doomed,
    lemma_kept_world_is_spared, Ent,
};
use crate::orders::{
    boxed, clicked, lemma_click_takes_one, lemma_first_guardable, lemma_taken_are_selectable,
    on_screen_selectable, spec_guard, spec_nav, spec_next_stance, spec_select, Guarding, Hit,
    LeftButton, NavAck, NavAsk, NavDone, NavFrame, OrderMode, Seen, Selecting, Stance,
};
use crate::production::{accepts, coming, OrderKind, WING_MAX};
use crate::refit::{
    bought, can_pay, first_key, not_yet, of_navy, spec_next_rung, spec_offers, spec_price, BuyView,
    RESEARCH_COST,
    SHIP_COST,
};
use crate::roles::{
    names_role, parse_in, role_order, spec_cuts_rock, spec_cuts_wreck, spec_hull, spec_label, Role,
};
use crate::run::{Hulk, RunState};
use crate::salvage::{
    all_fit, dead_cells, first_of_ship, owed, record_all, record_fits, settled, in_field_spec, lemma_dead_cells_are_the_dead, over_floor, recorded, scarred,
    spec_rebuild_price, Remains, REBUILD_COST, REBUILD_DATA, REBUILD_PENALTY,
};
use crate::state::{cue_spec, live_flags, live_hives, live_ships, spec_verdict, HullFact};
use crate::tide::spec_tide;
use crate::work::{able, can_work, spec_assign, Assigned, Body, Cutter, Job};
use crate::wreck::{
    core_in_hull, critical, lemma_all_gone, lemma_same_core_same_gone,
    lemma_without_core_takes_it_all, spec_wreck_remains, without_core, Reactor,
};
use crate::text::{
    all_digits, decimal, digit_char, digit_of, digits_value, spec_parse_unsigned, spec_split,
    spec_split_once, split_scan, unsigned_body,
};

verus! {

broadcast use vstd::string::group_string_axioms;

proof fn lemma_no_cut(w: Seq<char>, c: char)
    requires
        forall|i: int| 0 <= i < w.len() ==> w[i] != c,
    ensures
        split_scan(w, c).0.len() == 0,
        split_scan(w, c).1 == w,
    decreases w.len(),
{
    if w.len() > 0 {
        lemma_no_cut(w.drop_last(), c);
        assert(w.drop_last().push(w.last()) =~= w);
    }
}

/// Once `s` has been cut at its first `c`, at `k`, the first piece stays
/// what came before it however much more is read.
proof fn lemma_first_piece_stays(s: Seq<char>, c: char, k: int, j: int)
    requires
        0 <= k < s.len(),
        s[k] == c,
        forall|i: int| 0 <= i < k ==> s[i] != c,
        k < j <= s.len(),
    ensures
        split_scan(s.take(j), c).0.len() >= 1,
        split_scan(s.take(j), c).0[0] == s.take(k),
    decreases j - k,
{
    if j == k + 1 {
        lemma_no_cut(s.take(k), c);
        assert(s.take(j).drop_last() =~= s.take(k));
    } else {
        lemma_first_piece_stays(s, c, k, j - 1);
        assert(s.take(j).drop_last() =~= s.take(j - 1));
    }
}

/// The first piece of `s` cut at `c`: all of it when there is no `c`, and
/// what comes before the first `c` otherwise.
proof fn lemma_first_piece(s: Seq<char>, c: char, k: int)
    requires
        0 <= k <= s.len(),
        k < s.len() ==> s[k] == c,
        forall|i: int| 0 <= i < k ==> s[i] != c,
    ensures
        spec_split(s, c)[0] == s.take(k),
{
    if k == s.len() {
        lemma_no_cut(s, c);
        assert(s.take(k) =~= s);
    } else {
        lemma_first_piece_stays(s, c, k, s.len() as int);
        assert(s.take(s.len() as int) =~= s);
    }
}

/// The word of a role's label that names it on the command line.
pub open spec fn role_word(r: Role) -> Seq<char> {
    match r {
        Role::Miner => "miner"@,
        Role::Tanker => "tanker"@,
        Role::Salvager => "salvager"@,
        Role::Survey => "survey"@,
        Role::Freighter => "freighter"@,
        Role::Tender => "tender"@,
    }
}

proof fn lemma_role_words()
    ensures
        forall|r: Role| #[trigger] spec_split(spec_label(r), ' ')[0] == role_word(r),
{
    reveal_strlit("miner");
    reveal_strlit("tanker");
    reveal_strlit("salvager");
    reveal_strlit("survey ship");
    reveal_strlit("survey");
    reveal_strlit("freighter");
    reveal_strlit("tender");
    lemma_first_piece("miner"@, ' ', 5);
    assert("miner"@.take(5) =~= "miner"@);
    lemma_first_piece("tanker"@, ' ', 6);
    assert("tanker"@.take(6) =~= "tanker"@);
    lemma_first_piece("salvager"@, ' ', 8);
    assert("salvager"@.take(8) =~= "salvager"@);
    lemma_first_piece("survey ship"@, ' ', 6);
    assert("survey ship"@.take(6) =~= "survey"@);
    lemma_first_piece("freighter"@, ' ', 9);
    assert("freighter"@.take(9) =~= "freighter"@);
    lemma_first_piece("tender"@, ' ', 6);
    assert("tender"@.take(6) =~= "tender"@);
    assert forall|r: Role| #[trigger] spec_split(spec_label(r), ' ')[0] == role_word(r) by {
        match r {
            Role::Miner => {},
            Role::Tanker => {},
            Role::Salvager => {},
            Role::Survey => {},
            Role::Freighter => {},
            Role::Tender => {},
        }
    }
}

/// The role a word names, over the yard's list, unfolded.
proof fn lemma_parse_unfold(s: Seq<char>)
    ensures
        parse_in(s, role_order()) == (if names_role(s, Role::Miner) {
            Some(Role::Miner)
        } else if names_role(s, Role::Tanker) {
            Some(Role::Tanker)
        } else if names_role(s, Role::Salvager) {
            Some(Role::Salvager)
        } else if names_role(s, Role::Survey) {
            Some(Role::Survey)
        } else if names_role(s, Role::Freighter) {
            Some(Role::Freighter)
        } else if names_role(s, Role::Tender) {
            Some(Role::Tender)
        } else {
            None
        }),
{
    reveal_with_fuel(parse_in, 7);
    let o = role_order();
    assert(o.drop_first() =~= seq![Role::Tanker, Role::Salvager, Role::Survey, Role::Freighter, Role::Tender]);
    assert(o.drop_first().drop_first() =~= seq![Role::Salvager, Role::Survey, Role::Freighter, Role::Tender]);
    assert(o.drop_first().drop_first().drop_first() =~= seq![Role::Survey, Role::Freighter, Role::Tender]);
    assert(o.drop_first().drop_first().drop_first().drop_first() =~= seq![Role::Freighter, Role::Tender]);
    assert(o.drop_first().drop_first().drop_first().drop_first().drop_first() =~= seq![Role::Tender]);
    assert(o.drop_first().drop_first().drop_first().drop_first().drop_first().drop_first() =~= Seq::<Role>::empty());
}

/// A role's own hull, given on the command line, names that role.
pub proof fn law_parse_names_each_hull(r: Role)
    ensures
        parse_in(spec_hull(r), role_order()) == Some(r),
{
    lemma_role_words();
    reveal_strlit("miner");
    reveal_strlit("tanker");
    reveal_strlit("salvager");
    reveal_strlit("survey");
    reveal_strlit("freighter");
    reveal_strlit("tender");
    reveal_strlit("civil_miner");
    reveal_strlit("civil_tanker");
    reveal_strlit("civil_hauler");
    reveal_strlit("civil_lighter");
    reveal_strlit("civil_liner");
    lemma_parse_unfold(spec_hull(r));
    let w = spec_hull(r);
    match r {
        Role::Miner => {},
        Role::Tanker => {
            assert(role_word(Role::Miner).len() != w.len());
            assert(spec_hull(Role::Miner).len() != w.len());
        },
        Role::Salvager => {
            assert(role_word(Role::Miner).len() != w.len());
            assert(spec_hull(Role::Miner).len() != w.len());
            assert(role_word(Role::Tanker).len() != w.len());
            assert(spec_hull(Role::Tanker)[6] != w[6]);
        },
        Role::Survey => {
            assert(role_word(Role::Miner).len() != w.len());
            assert(spec_hull(Role::Miner).len() != w.len());
            assert(role_word(Role::Tanker).len() != w.len());
            assert(spec_hull(Role::Tanker).len() != w.len());
            assert(role_word(Role::Salvager).len() != w.len());
            assert(spec_hull(Role::Salvager).len() != w.len());
        },
        Role::Freighter => {
            assert(role_word(Role::Miner).len() != w.len());
            assert(spec_hull(Role::Miner).len() != w.len());
            assert(role_word(Role::Tanker).len() != w.len());
            assert(spec_hull(Role::Tanker).len() != w.len());
            assert(role_word(Role::Salvager).len() != w.len());
            assert(spec_hull(Role::Salvager).len() != w.len());
            assert(role_word(Role::Survey).len() != w.len());
            assert(spec_hull(Role::Survey).len() != w.len());
        },
        Role::Tender => {
            assert(role_word(Role::Miner).len() != w.len());
            assert(spec_hull(Role::Miner)[6] != w[6]);
            assert(role_word(Role::Tanker).len() != w.len());
            assert(spec_hull(Role::Tanker).len() != w.len());
            assert(role_word(Role::Salvager).len() != w.len());
            assert(spec_hull(Role::Salvager).len() != w.len());
            assert(role_word(Role::Survey).len() != w.len());
            assert(spec_hull(Role::Survey).len() != w.len());
            assert(role_word(Role::Freighter).len() != w.len());
            assert(spec_hull(Role::Freighter).len() != w.len());
        },
    }
}

/// The first word of a role's label, given on the command line, names that
/// role: `survey` is the survey ship.
pub proof fn law_parse_names_each_label(r: Role)
    ensures
        parse_in(spec_split(spec_label(r), ' ')[0], role_order()) == Some(r),
{
    lemma_role_words();
    reveal_strlit("miner");
    reveal_strlit("tanker");
    reveal_strlit("salvager");
    reveal_strlit("survey");
    reveal_strlit("freighter");
    reveal_strlit("tender");
    reveal_strlit("civil_miner");
    reveal_strlit("civil_tanker");
    reveal_strlit("civil_hauler");
    reveal_strlit("civil_lighter");
    reveal_strlit("civil_liner");
    let w = role_word(r);
    lemma_parse_unfold(w);
    match r {
        Role::Miner => {},
        Role::Tanker => {
            assert(role_word(Role::Miner).len() != w.len());
            assert(spec_hull(Role::Miner).len() != w.len());
        },
        Role::Salvager => {
            assert(role_word(Role::Miner).len() != w.len());
            assert(spec_hull(Role::Miner).len() != w.len());
            assert(role_word(Role::Tanker).len() != w.len());
            assert(spec_hull(Role::Tanker).len() != w.len());
        },
        Role::Survey => {
            assert(role_word(Role::Miner).len() != w.len());
            assert(spec_hull(Role::Miner).len() != w.len());
            assert(role_word(Role::Tanker)[0] != w[0]);
            assert(spec_hull(Role::Tanker).len() != w.len());
            assert(role_word(Role::Salvager).len() != w.len());
            assert(spec_hull(Role::Salvager).len() != w.len());
        },
        Role::Freighter => {
            assert(role_word(Role::Miner).len() != w.len());
            assert(spec_hull(Role::Miner).len() != w.len());
            assert(role_word(Role::Tanker).len() != w.len());
            assert(spec_hull(Role::Tanker).len() != w.len());
            assert(role_word(Role::Salvager).len() != w.len());
            assert(spec_hull(Role::Salvager).len() != w.len());
            assert(role_word(Role::Survey).len() != w.len());
            assert(spec_hull(Role::Survey).len() != w.len());
        },
        Role::Tender => {
            assert(role_word(Role::Miner).len() != w.len());
            assert(spec_hull(Role::Miner).len() != w.len());
            assert(role_word(Role::Tanker)[1] != w[1]);
            assert(spec_hull(Role::Tanker).len() != w.len());
            assert(role_word(Role::Salvager).len() != w.len());
            assert(spec_hull(Role::Salvager).len() != w.len());
            assert(role_word(Role::Survey)[0] != w[0]);
            assert(spec_hull(Role::Survey).len() != w.len());
            assert(role_word(Role::Freighter).len() != w.len());
            assert(spec_hull(Role::Freighter).len() != w.len());
        },
    }
}


/// What a bank lands it can spend again: landing a yield and then spending
/// the same yield always succeeds, and leaves the bank as it was.
pub proof fn law_land_then_spend(b: Bank, y: Yield)
    requires
        b.materials + y.materials <= u32::MAX,
        b.volatiles + y.volatiles <= u32::MAX,
        b.data + y.data <= u32::MAX,
    ensures
        covers(taken(b, y), y),
        spent(taken(b, y), y) == b,
{
}

/// A run opens with the command ship's own tank and nothing else: enough
/// fuel for one hop, never enough for two.
pub proof fn law_opening_tank_pays_one_jump()
    ensures
        Bank::opening_spec().fuel >= JUMP_FUEL,
        Bank::opening_spec().fuel < 2 * JUMP_FUEL,
        after_jump(Bank::opening_spec().fuel) < JUMP_FUEL,
        Bank::opening_spec().materials == 0 && Bank::opening_spec().volatiles == 0
            && Bank::opening_spec().data == 0,
{
}

/// A jump never leaves the tank below nought, and a tank that held one
/// pays exactly its price.
pub proof fn law_jump_fuel(fuel: u32)
    ensures
        after_jump(fuel) <= fuel,
        fuel >= JUMP_FUEL ==> after_jump(fuel) == fuel - JUMP_FUEL,
        fuel < JUMP_FUEL ==> after_jump(fuel) == 0,
{
}

/// The two currencies do not stand in for one another: research spends
/// data and no materials, and a ship spends materials and no data.
pub proof fn law_currencies_apart(run: RunState, after: RunState, r: Role)
    ensures
        bought(BuyView::Research(r), run, after) && can_pay(run, (0, RESEARCH_COST)) ==> after.bank.materials == run.bank.materials
            && after.bank.data == run.bank.data - RESEARCH_COST,
        bought(BuyView::Ship(r), run, after) && can_pay(run, (SHIP_COST, 0)) ==> after.bank.data == run.bank.data
            && after.bank.materials == run.bank.materials - SHIP_COST,
{
}

/// A repair is priced by the cells it welds and closes all of them.
pub proof fn law_repair_closes_every_scar(run: RunState, after: RunState)
    requires
        run.scars@.len() <= u32::MAX,
        run.bank.materials >= run.scars@.len(),
        bought(BuyView::Repair, run, after),
    ensures
        after.scars@.len() == 0,
        after.bank.materials == run.bank.materials - run.scars@.len(),
        after.bank.data == run.bank.data,
{
}

proof fn lemma_not_yet(order: Seq<Role>, have: Seq<Role>, r: Role)
    ensures
        not_yet(order, have).contains(r) <==> (order.contains(r) && !have.contains(r)),
    decreases order.len(),
{
    if order.len() > 0 {
        lemma_not_yet(order.drop_last(), have, r);
        let rest = not_yet(order.drop_last(), have);
        if order.contains(r) && !have.contains(r) {
            let k = choose|k: int| 0 <= k < order.len() && order[k] == r;
            if k == order.len() - 1 {
                assert(not_yet(order, have) == rest.push(r));
                assert(not_yet(order, have)[rest.len() as int] == r);
            } else {
                assert(order.drop_last()[k] == r);
                let m = choose|m: int| 0 <= m < rest.len() && rest[m] == r;
                assert(not_yet(order, have)[m] == r);
            }
        }
        if not_yet(order, have).contains(r) {
            let m = choose|m: int| 0 <= m < not_yet(order, have).len() && not_yet(order, have)[m] == r;
            if m < rest.len() {
                assert(rest[m] == r);
                let k = choose|k: int| 0 <= k < order.drop_last().len() && order.drop_last()[k] == r;
                assert(order[k] == r);
            } else {
                assert(order.last() == r);
                assert(order[order.len() - 1] == r);
            }
        }
    }
}

proof fn lemma_every_role_listed(r: Role)
    ensures
        role_order().contains(r),
{
    match r {
        Role::Miner => assert(role_order()[0] == r),
        Role::Tanker => assert(role_order()[1] == r),
        Role::Salvager => assert(role_order()[2] == r),
        Role::Survey => assert(role_order()[3] == r),
        Role::Freighter => assert(role_order()[4] == r),
        Role::Tender => assert(role_order()[5] == r),
    }
}

/// What the yard offers: a weld exactly when the flagship carries scars,
/// and then before anything else; an escort always; a ship of every role
/// it has researched and of no other; research of every role it has not.
pub proof fn law_offers(run: RunState, keys: Seq<Seq<char>>, r: Role)
    ensures
        spec_offers(run, keys).contains(BuyView::Repair) <==> run.scars@.len() > 0,
        run.scars@.len() > 0 ==> spec_offers(run, keys)[0] == BuyView::Repair,
        spec_offers(run, keys).contains(BuyView::Escort),
        spec_offers(run, keys).contains(BuyView::Ship(r)) <==> run.unlocked@.contains(r),
        spec_offers(run, keys).contains(BuyView::Research(r)) <==> !run.unlocked@.contains(r),
{
    let head: Seq<BuyView> = if run.scars@.len() > 0 {
        seq![BuyView::Repair]
    } else {
        Seq::empty()
    };
    let ships = run.unlocked@.map_values(|q: Role| BuyView::Ship(q));
    let refit: Seq<BuyView> = match spec_next_rung(run.flagship@, keys) {
        Some(k) => seq![BuyView::Refit(k)],
        None => Seq::empty(),
    };
    let todo = not_yet(role_order(), run.unlocked@);
    let research = todo.map_values(|q: Role| BuyView::Research(q));
    let all = spec_offers(run, keys);
    assert(all == head + seq![BuyView::Escort] + ships + refit + research);
    let a = head.len() as int;
    let b = a + 1;
    let c = b + ships.len();
    let d = c + refit.len();
    assert(all.len() == d + research.len());
    assert forall|i: int| 0 <= i < all.len() implies (#[trigger] all[i]) == (if i < a {
        head[i]
    } else if i < b {
        BuyView::Escort
    } else if i < c {
        ships[i - b]
    } else if i < d {
        refit[i - c]
    } else {
        research[i - d]
    }) by {}
    // A weld, and only when there are scars.
    if run.scars@.len() > 0 {
        assert(all[0] == BuyView::Repair);
    }
    if all.contains(BuyView::Repair) {
        let i = choose|i: int| 0 <= i < all.len() && all[i] == BuyView::Repair;
        assert(i < a);
    }
    assert(all[a] == BuyView::Escort);
    // A ship of exactly the roles researched.
    if run.unlocked@.contains(r) {
        let k = choose|k: int| 0 <= k < run.unlocked@.len() && run.unlocked@[k] == r;
        assert(all[b + k] == BuyView::Ship(r));
    }
    if all.contains(BuyView::Ship(r)) {
        let i = choose|i: int| 0 <= i < all.len() && all[i] == BuyView::Ship(r);
        assert(b <= i < c);
        assert(run.unlocked@[i - b] == r);
    }
    // Research of exactly the roles not yet researched.
    lemma_not_yet(role_order(), run.unlocked@, r);
    lemma_every_role_listed(r);
    if !run.unlocked@.contains(r) {
        let k = choose|k: int| 0 <= k < todo.len() && todo[k] == r;
        assert(all[d + k] == BuyView::Research(r));
    }
    if all.contains(BuyView::Research(r)) {
        let i = choose|i: int| 0 <= i < all.len() && all[i] == BuyView::Research(r);
        assert(d <= i);
        assert(todo[i - d] == r);
    }
}

/// Researching a role moves it from one list to the other, which is the
/// whole of the tech tree: data buys the right to spend materials.
pub proof fn law_research_unlocks(run: RunState, after: RunState, keys: Seq<Seq<char>>, r: Role)
    requires
        bought(BuyView::Research(r), run, after),
    ensures
        spec_offers(after, keys).contains(BuyView::Ship(r)),
        !spec_offers(after, keys).contains(BuyView::Research(r)),
{
    assert(after.unlocked@[run.unlocked@.len() as int] == r);
    law_offers(after, keys, r);
}

/// The next rung is the navy's own: a class further up the shelf than the
/// one the flagship is, of the same navy (the part of the key before its
/// first underscore), with no class of that navy between them.
pub proof fn law_next_rung_is_the_navys_own(from: Seq<char>, keys: Seq<Seq<char>>)
    ensures
        spec_next_rung(from, keys) matches Some(k) ==> exists|at: int, j: int|
            {
                &&& #[trigger] first_key(keys, from, at)
                &&& at < j < keys.len()
                &&& #[trigger] keys[j] == k
                &&& spec_split_once(from, '_') matches Some((navy, _))
                &&& of_navy(k, navy)
                &&& forall|m: int| at < m < j ==> !of_navy(#[trigger] keys[m], navy)
            },
{
    if let Some(k) = spec_next_rung(from, keys) {
        let (navy, rest) = spec_split_once(from, '_')->Some_0;
        let at = choose|at: int| first_key(keys, from, at);
        let j = choose|j: int| crate::refit::rung_after(keys, navy, at, j);
        assert(keys[j] == k);
    }
}

/// Carrying a piece across never takes anything off the run: every hulk
/// keeps its ship and has at least what it had, and none is forgotten.
pub proof fn law_salvage_only_grows(p: Remains, hulks: Seq<Hulk>)
    requires
        crate::salvage::record_fits(p, hulks),
    ensures
        recorded(p, hulks).len() >= hulks.len(),
        forall|i: int|
            0 <= i < hulks.len() ==> (#[trigger] recorded(p, hulks)[i]).ship == hulks[i].ship
                && recorded(p, hulks)[i].got >= hulks[i].got,
{
    if crate::salvage::owed(p) > 0 {
        if exists|i: int| crate::salvage::first_of_ship(hulks, p.ship, i) {
            let k = choose|i: int| crate::salvage::first_of_ship(hulks, p.ship, i);
            assert(recorded(p, hulks) == hulks.update(
                k,
                Hulk { got: (hulks[k].got + crate::salvage::owed(p)) as u32, ..hulks[k] },
            ));
            assert(hulks[k].got + crate::salvage::owed(p) <= u32::MAX);
        }
    }
}

/// Carrying every piece across, however many and in whatever order, never
/// takes anything off the run: no hulk is forgotten or changes ship, none
/// has less than it had, and every piece ends with all it had got banked.
pub proof fn law_salvage_of_every_piece_only_grows(pieces: Seq<Remains>, hulks: Seq<Hulk>)
    requires
        all_fit(pieces, hulks),
    ensures
        record_all(pieces, hulks).len() >= hulks.len(),
        forall|i: int|
            0 <= i < hulks.len() ==> (#[trigger] record_all(pieces, hulks)[i]).ship == hulks[i].ship
                && record_all(pieces, hulks)[i].got >= hulks[i].got,
        forall|k: int|
            0 <= k < pieces.len() ==> (#[trigger] settled(pieces[k])).banked == if pieces[k].got
                > pieces[k].banked {
                pieces[k].got
            } else {
                pieces[k].banked
            },
    decreases pieces.len(),
{
    if pieces.len() > 0 {
        let rest = pieces.drop_last();
        assert forall|i: int| 0 <= i < rest.len() implies record_fits(
            #[trigger] rest[i],
            record_all(rest.take(i), hulks),
        ) by {
            assert(rest.take(i) =~= pieces.take(i));
            assert(rest[i] == pieces[i]);
        }
        law_salvage_of_every_piece_only_grows(rest, hulks);
        let last = (pieces.len() - 1) as int;
        assert(pieces.take(last) =~= rest);
        assert(record_fits(pieces[last], record_all(rest, hulks)));
        law_salvage_only_grows(pieces.last(), record_all(rest, hulks));
    }
}

/// What the pieces of one ship still owe the run, all told.
pub open spec fn owed_to(pieces: Seq<Remains>, ship: u32) -> nat
    decreases pieces.len(),
{
    if pieces.len() == 0 {
        0
    } else {
        owed_to(pieces.drop_last(), ship) + if pieces.last().ship == ship {
            owed(pieces.last()) as nat
        } else {
            0nat
        }
    }
}

/// A ship the run already remembers gains exactly what its pieces owed: the
/// hulk that is that ship ends with what it had plus the sum, over every
/// piece of that ship, of what the piece had got and not yet banked.
pub proof fn law_salvage_adds_what_each_piece_owed(
    pieces: Seq<Remains>,
    hulks: Seq<Hulk>,
    ship: u32,
    i: int,
)
    requires
        all_fit(pieces, hulks),
        first_of_ship(hulks, ship, i),
    ensures
        record_all(pieces, hulks)[i].got == hulks[i].got + owed_to(pieces, ship),
        first_of_ship(record_all(pieces, hulks), ship, i),
    decreases pieces.len(),
{
    if pieces.len() > 0 {
        let rest = pieces.drop_last();
        assert forall|k: int| 0 <= k < rest.len() implies record_fits(
            #[trigger] rest[k],
            record_all(rest.take(k), hulks),
        ) by {
            assert(rest.take(k) =~= pieces.take(k));
            assert(rest[k] == pieces[k]);
        }
        law_salvage_adds_what_each_piece_owed(rest, hulks, ship, i);
        let r = record_all(rest, hulks);
        let last = (pieces.len() - 1) as int;
        assert(pieces.take(last) =~= rest);
        assert(record_fits(pieces[last], r));
        let p = pieces.last();
        law_salvage_only_grows(p, r);
        if owed(p) > 0 {
            if exists|k: int| first_of_ship(r, p.ship, k) {
                let k = choose|k: int| first_of_ship(r, p.ship, k);
                if p.ship == ship {
                    assert(k == i) by {
                        if k < i {
                            assert(r[k].ship != ship);
                        } else if k > i {
                            assert(r[i].ship != p.ship);
                        }
                    }
                    assert(r[i].got + owed(p) <= u32::MAX);
                } else {
                    assert(k != i);
                }
            }
        }
        let after = record_all(pieces, hulks);
        assert(after == recorded(p, r));
        assert forall|j: int| 0 <= j < i implies after[j].ship != ship by {
            assert(r[j].ship != ship);
        }
    }
}

/// A wreck's pieces start the salvage ledger at nought: the record a hull
/// leaves when it goes critical is of its own ship and class, owes the run
/// nothing, and carrying it across leaves the run's hulks as they were until
/// a salvager cuts something off it.
pub proof fn law_a_fresh_wreck_owes_nothing(hull: Reactor, hulks: Seq<Hulk>)
    ensures
        spec_wreck_remains(hull) matches Some(p) ==> {
            &&& p.ship == hull.seed
            &&& hull.class == Some(p.class)
            &&& owed(p) == 0
            &&& recorded(p, hulks) == hulks
            &&& settled(p) == p
        },
        hull.class is None ==> spec_wreck_remains(hull) is None,
{
}

/// A hulk that can be rebuilt in the field is over the floor, and costs the
/// field's price; one over the floor and short of the field costs the
/// penalty in data; one under the floor has no price at all.
pub proof fn law_rebuild_tiers(h: Hulk)
    ensures
        in_field_spec(h) ==> over_floor(h) && spec_rebuild_price(h) == Some(
            (REBUILD_COST, REBUILD_DATA),
        ),
        over_floor(h) && !in_field_spec(h) ==> spec_rebuild_price(h) == Some(
            (REBUILD_COST, (REBUILD_DATA * REBUILD_PENALTY) as u32),
        ),
        !over_floor(h) ==> spec_rebuild_price(h) is None,
{
}

/// The stance cell goes round all three and comes back: every press moves
/// it on, and three presses are where it started.
pub proof fn law_stance_cycles(s: Stance)
    ensures
        spec_next_stance(s) != s,
        spec_next_stance(spec_next_stance(s)) != s,
        spec_next_stance(spec_next_stance(spec_next_stance(s))) == s,
{
}

/// What survives a teardown is exactly what was there before any scene: once
/// the backdrop is tagged, a teardown takes precisely the top level entities
/// of the field spawned after it, and nothing of the backdrop.
pub proof fn law_teardown_spares_the_backdrop(backdrop: Seq<Ent>, field: Seq<Ent>)
    requires
        forall|i: int| 0 <= i < field.len() ==> !field[i].keep,
    ensures
        doomed_ids(backdrop.map_values(|e: Ent| kept(e)) + field) == doomed_ids(field),
{
    lemma_doomed_ids_append(backdrop.map_values(|e: Ent| kept(e)), field);
    lemma_kept_world_is_spared(backdrop);
    assert(Seq::<u64>::empty() + doomed_ids(field) =~= doomed_ids(field));
}

/// Where every entity has an id of its own, a teardown despawns exactly the
/// doomed ones: each top level entity with a place in space that is neither
/// kept nor a node of the interface is taken, and every other entity (the
/// kept, the interface, the unplaced, and the children, which go with their
/// parents) is not named. So, after the backdrop was tagged, not one of it is.
pub proof fn law_teardown_takes_exactly_the_doomed(backdrop: Seq<Ent>, field: Seq<Ent>)
    requires
        forall|i: int| 0 <= i < field.len() ==> !field[i].keep,
        forall|i: int, j: int|
            0 <= i < j < (backdrop + field).len() ==> (backdrop + field)[i].id != (backdrop
                + field)[j].id,
    ensures
        ({
            let w = backdrop.map_values(|e: Ent| kept(e)) + field;
            &&& forall|i: int|
                0 <= i < w.len() ==> (doomed_ids(w).contains(#[trigger] w[i].id) <==> doomed(w[i]))
            &&& forall|i: int|
                0 <= i < backdrop.len() ==> !doomed_ids(w).contains(#[trigger] backdrop[i].id)
        }),
{
    let w = backdrop.map_values(|e: Ent| kept(e)) + field;
    let both = backdrop + field;
    assert forall|i: int| 0 <= i < w.len() implies w[i].id == #[trigger] both[i].id by {
        if i < backdrop.len() {
            assert(w[i] == kept(backdrop[i]));
        } else {
            assert(w[i] == field[i - backdrop.len()]);
        }
    }
    assert forall|i: int| 0 <= i < w.len() implies (doomed_ids(w).contains(#[trigger] w[i].id)
        <==> doomed(w[i])) by {
        lemma_doomed_ids_are_the_doomed(w, w[i].id);
        if doomed_ids(w).contains(w[i].id) {
            let j = choose|j: int| 0 <= j < w.len() && #[trigger] w[j].id == w[i].id && doomed(w[j]);
            if j != i {
                assert(both[i].id == w[i].id);
                assert(both[j].id == w[j].id);
                if i < j {
                    assert(both[i].id != both[j].id);
                } else {
                    assert(both[j].id != both[i].id);
                }
            }
        }
    }
    assert forall|i: int| 0 <= i < backdrop.len() implies !doomed_ids(w).contains(
        #[trigger] backdrop[i].id,
    ) by {
        assert(w[i] == kept(backdrop[i]));
        assert(w[i].id == backdrop[i].id);
        assert(!doomed(w[i]));
        assert(doomed_ids(w).contains(w[i].id) <==> doomed(w[i]));
    }
}

/// The wing never takes more ships than it has stations for: while the
/// escorts flying and the stations the queue has promised are within
/// `WING_MAX`, every order the yard takes keeps them so, whatever it is.
pub proof fn law_wing_never_overfills(
    queue: Seq<OrderKind>,
    bank: Bank,
    order: OrderKind,
    price: Yield,
    room: bool,
    out: u32,
)
    requires
        out + coming(queue) <= WING_MAX,
    ensures
        accepts(queue, bank, order, price, room, out) ==> out + coming(queue.push(order))
            <= WING_MAX,
{
    assert(queue.push(order).drop_last() =~= queue);
}

/// Killing a carrier does not bring another: the tide compares its curve
/// with how many have ever been spawned, so over any two ticks it spawns
/// exactly up to the highest the curve has asked for, and no more.
pub proof fn law_tide_counts_the_spawned(spawned: usize, w1: usize, w2: usize)
    ensures
        ({
            let (n1, s1) = spec_tide(spawned, true, w1);
            let (n2, s2) = spec_tide(s1, true, w2);
            &&& s2 >= spawned && s2 >= w1 && s2 >= w2
            &&& (s2 == spawned || s2 == w1 || s2 == w2)
            &&& n1 + n2 == s2 - spawned
        }),
{
}

/// There is one way a ship dies: a hull whose whole reactor has been taken
/// out, by the harness or by a player scuttling it, goes critical by the
/// reactor rule itself, forced or not.
pub proof fn law_a_gutted_reactor_goes_critical(
    core: Seq<usize>,
    dead: Seq<bool>,
    explode: u32,
    tick: u32,
)
    requires
        core_in_hull(core, dead),
        core.len() > 0,
    ensures
        critical(false, false, core, without_core(dead, core), explode, tick),
{
    lemma_without_core_takes_it_all(core, dead);
    lemma_all_gone(core, without_core(dead, core));
}

/// Only the reactor counts: two hulls whose reactor cells stand the same go
/// critical together, however differently the rest of them has been shot.
pub proof fn law_only_the_reactor_counts(
    core: Seq<usize>,
    d1: Seq<bool>,
    d2: Seq<bool>,
    explode: u32,
    tick: u32,
)
    requires
        core_in_hull(core, d1),
        core_in_hull(core, d2),
        forall|k: int| 0 <= k < core.len() ==> d1[core[k] as int] == d2[core[k] as int],
    ensures
        critical(false, false, core, d1, explode, tick) == critical(
            false,
            false,
            core,
            d2,
            explode,
            tick,
        ),
{
    lemma_same_core_same_gone(core, d1, d2);
}

/// A ship arrives with exactly the holes it left with: the scars read off a
/// hull as it jumps, put on a whole hull of the same class in the next
/// system, leave precisely the cells dead that were dead, and no others.
pub proof fn law_scars_carry_over(dead: Seq<bool>)
    requires
        dead.len() <= u32::MAX as int + 1,
    ensures
        scarred(Seq::new(dead.len(), |n: int| false), dead_cells(dead)) == dead,
{
    lemma_dead_cells_are_the_dead(dead);
    assert(scarred(Seq::new(dead.len(), |n: int| false), dead_cells(dead)) =~= dead);
}

/// The selection never opens an order, and never reads a press another mode
/// owns: from `Idle` or `Box` it only ever leaves `Idle` or `Box` behind, and
/// while a move, a shot or a guard is being aimed it leaves the mode as it
/// found it and does nothing.
pub proof fn law_selection_keeps_to_its_button(mode: OrderMode, b: LeftButton)
    ensures
        (mode == OrderMode::Idle || mode == OrderMode::Box) ==> (spec_select(mode, b).0
            == OrderMode::Idle || spec_select(mode, b).0 == OrderMode::Box),
        !(mode == OrderMode::Idle || mode == OrderMode::Box) ==> spec_select(mode, b) == (
        mode,
        Selecting::Nothing,
        ),
        spec_select(mode, b).1 is Take ==> mode == OrderMode::Box && !b.held,
{
}

/// The move order's promises: escape cancels an open order and does nothing
/// else; the right button inside an open order does nothing but aim; a
/// commit sends exactly the selected ships and closes the order; while a
/// band box, a shot or a guard is being aimed the order reads no button;
/// and on the scene's first frame `--aim` opens the disc on any selection
/// that is not empty, and on no other frame and no empty selection.
pub proof fn law_move_order_flow(mode: OrderMode, ask: NavAsk, f: NavFrame)
    ensures
        (f.escape && mode == OrderMode::Move && !f.first_aim) ==> spec_nav(mode, ask, f) == (
        OrderMode::Idle,
        ask,
        NavDone {
            scripted: false,
            opened: false,
            rally: false,
            commit: false,
            aim: false,
            ack: Some(NavAck::Cancelled),
        },
        ),
        (mode == OrderMode::Move && !f.escape && f.window && !f.over_ui && !(f.left && !f.alt))
            ==> spec_nav(mode, ask, f).0 == OrderMode::Move && !spec_nav(mode, ask, f).2.commit
            && !spec_nav(mode, ask, f).2.rally,
        spec_nav(mode, ask, f).2.commit ==> spec_nav(mode, ask, f).2.ack == Some(
            NavAck::UnderWay(f.chosen),
        ) && spec_nav(mode, ask, f).0 == OrderMode::Idle,
        (!f.first_aim && (mode == OrderMode::Box || mode == OrderMode::Range || mode
            == OrderMode::Guard)) ==> (spec_nav(mode, ask, f).0 == mode && !spec_nav(
            mode,
            ask,
            f,
        ).2.commit && !spec_nav(mode, ask, f).2.opened && !spec_nav(mode, ask, f).2.aim),
        spec_nav(mode, ask, f).2.scripted == (f.first_aim && f.chosen > 0),
        (f.first_aim && f.chosen > 0 && !f.escape && f.window && !f.over_ui && !(f.left
            && !f.alt)) ==> spec_nav(mode, ask, f).0 == OrderMode::Move,
{
}

/// A ship may not guard itself: what a selection is set to guard is a live
/// hull under the pointer that is not one of the selection, and only a press
/// in `Guard` sets one.
pub proof fn law_no_ship_guards_itself(
    mode: OrderMode,
    escape: bool,
    left: bool,
    pointer: bool,
    hits: Seq<Hit>,
    picked: Seq<u64>,
)
    ensures
        spec_guard(mode, escape, left, pointer, hits, picked).1 matches Guarding::Guard { of, ships }
            ==> {
            &&& mode == OrderMode::Guard && left && !escape
            &&& !picked.contains(of)
            &&& ships == picked.len() as usize
            &&& exists|k: int| 0 <= k < hits.len() && hits[k].id == of && !hits[k].dead
        },
{
    lemma_first_guardable(hits, picked);
}

/// A closing box never takes a carrier of the swarm's or a wreck: every ship
/// it selects, by a drag or by a click, is a live ship of the fleet's that
/// the box covered, and a click takes at most one.
pub proof fn law_selection_takes_only_the_fleet(seen: Seq<Seen>)
    ensures
        forall|k: int|
            0 <= k < boxed(seen).len() ==> on_screen_selectable(seen, #[trigger] boxed(seen)[k]),
        forall|k: int|
            0 <= k < clicked(seen).len() ==> on_screen_selectable(seen, #[trigger] clicked(seen)[k]),
        clicked(seen).len() <= 1,
{
    lemma_taken_are_selectable(seen);
    lemma_click_takes_one(seen);
}

/// None of the support ships does another's job: a press that puts ships to
/// work changes the job of exactly the selected ships that can work the body
/// (a miner or a survey ship on a rock, a salvager or a survey ship on a
/// wreck), each to that body, counts exactly them, and leaves every other
/// ship's job as it was; a mined out rock changes nothing.
pub proof fn law_each_ship_to_its_own_work(
    idle: bool,
    right: bool,
    b: Body,
    crews: Seq<Cutter>,
)
    ensures
        ({
            let (a, after) = spec_assign(idle, right, Some(b), crews);
            &&& after.len() == crews.len()
            &&& a matches Assigned::ToWork(n) ==> n == able(crews, b) as u32 && forall|k: int|
                0 <= k < crews.len() ==> (#[trigger] after[k]).role == crews[k].role && (if can_work(
                    crews[k].role,
                    b,
                ) {
                    after[k].job == Job::Work(b.id)
                } else {
                    after[k].job == crews[k].job
                })
            &&& !(a is ToWork) ==> after == crews
            &&& (b.rock && b.seam == 0 && idle && right && crews.len() > 0) ==> a
                == Assigned::MinedOut
        }),
{
}

/// What each purchase costs, in the cubes a player carries home: a repair a
/// material for every scar it welds, an escort two ore cubes, a ship of a
/// role one ore cube, research one data cube and no materials, and a refit
/// to the next rung four ore cubes and two data cubes, whatever the rung:
/// a run without two data cubes in the bank cannot pay for a refit.
pub proof fn law_prices_in_cubes(key: Seq<char>, r: Role, scars: nat, run: RunState)
    ensures
        scars <= u32::MAX ==> spec_price(BuyView::Repair, scars) == (scars as u32, 0u32),
        spec_price(BuyView::Escort, scars) == ((2 * ORE_CUBE) as u32, 0u32),
        spec_price(BuyView::Ship(r), scars) == (ORE_CUBE, 0u32),
        spec_price(BuyView::Research(r), scars) == (0u32, DATA_CUBE),
        spec_price(BuyView::Refit(key), scars) == ((4 * ORE_CUBE) as u32, (2 * DATA_CUBE) as u32),
        spec_price(BuyView::Refit(key), scars).1 > 0,
        can_pay(run, spec_price(BuyView::Refit(key), scars)) <==> (run.bank.materials >= 4
            * ORE_CUBE && run.bank.data >= 2 * DATA_CUBE),
{
}

/// How many hulls of a kind are live is nought exactly when none is.
proof fn lemma_live_counts(h: Seq<HullFact>)
    ensures
        (live_hives(h) > 0) <==> exists|i: int| 0 <= i < h.len() && !h[i].dead && #[trigger] h[i].hive,
        (live_ships(h) > 0) <==> exists|i: int|
            0 <= i < h.len() && !h[i].dead && !#[trigger] h[i].hive,
        (live_flags(h) > 0) <==> exists|i: int|
            0 <= i < h.len() && !h[i].dead && !h[i].hive && #[trigger] h[i].flagship,
    decreases h.len(),
{
    if h.len() > 0 {
        let init = h.drop_last();
        lemma_live_counts(init);
        assert forall|i: int| 0 <= i < init.len() implies init[i] == h[i] by {}
        let last = h.len() - 1;
        assert(h[last] == h.last());
        if exists|i: int| 0 <= i < h.len() && !h[i].dead && #[trigger] h[i].hive {
            let i = choose|i: int| 0 <= i < h.len() && !h[i].dead && #[trigger] h[i].hive;
            if i < last {
                assert(init[i] == h[i]);
            }
        }
        if exists|i: int| 0 <= i < h.len() && !h[i].dead && !#[trigger] h[i].hive {
            let i = choose|i: int| 0 <= i < h.len() && !h[i].dead && !#[trigger] h[i].hive;
            if i < last {
                assert(init[i] == h[i]);
            }
        }
        if exists|i: int| 0 <= i < h.len() && !h[i].dead && !h[i].hive && #[trigger] h[i].flagship {
            let i = choose|i: int|
                0 <= i < h.len() && !h[i].dead && !h[i].hive && #[trigger] h[i].flagship;
            if i < last {
                assert(init[i] == h[i]);
            }
        }
    }
}

/// The verdict on a scene. A skirmish is won when no carrier of the swarm's
/// is left alive, and lost only when every one of the player's hulls is a
/// wreck: while any of them flies, the flagship or not, and a carrier lives,
/// nothing is decided. A retreat is never won on carriers, since its way
/// out is the jump; it is lost when the flagship is gone, because the drive
/// that carries the fleet out was in it.
pub proof fn law_the_verdict(h: Seq<HullFact>)
    ensures
        (forall|i: int| 0 <= i < h.len() ==> #[trigger] h[i].dead || !h[i].hive) ==> spec_verdict(
            false,
            h,
        ) == Some(true),
        (exists|i: int| 0 <= i < h.len() && !h[i].dead && #[trigger] h[i].hive) ==> ((exists|
            j: int,
        | 0 <= j < h.len() && !h[j].dead && !#[trigger] h[j].hive) <==> spec_verdict(false, h)
            is None),
        (exists|i: int| 0 <= i < h.len() && !h[i].dead && #[trigger] h[i].hive) && (forall|j: int|
            0 <= j < h.len() ==> #[trigger] h[j].dead || h[j].hive) ==> spec_verdict(false, h)
            == Some(false),
        spec_verdict(true, h) != Some(true),
        (exists|i: int| 0 <= i < h.len() && !h[i].dead && !h[i].hive && #[trigger] h[i].flagship)
            <==> spec_verdict(true, h) is None,
{
    lemma_live_counts(h);
}

/// Which support ship works what, by name: a miner cuts rocks and not
/// wrecks, a salvager cuts wrecks and not rocks, a survey ship reads either,
/// and a tanker, a freighter or a tender works neither. So when a press puts
/// ships to work, a ship is set to the body exactly when its role works it,
/// and every other ship keeps the job it had.
pub proof fn law_who_works_what(idle: bool, right: bool, b: Body, crews: Seq<Cutter>)
    ensures
        forall|r: Role| #[trigger] spec_cuts_rock(r) <==> (r == Role::Miner || r == Role::Survey),
        forall|r: Role|
            #[trigger] spec_cuts_wreck(r) <==> (r == Role::Salvager || r == Role::Survey),
        ({
            let (a, after) = spec_assign(idle, right, Some(b), crews);
            forall|k: int|
                0 <= k < crews.len() ==> {
                    &&& (crews[k].role == Role::Tanker || crews[k].role == Role::Freighter
                        || crews[k].role == Role::Tender) ==> (#[trigger] after[k]).job
                        == crews[k].job
                    &&& (b.rock && crews[k].role == Role::Salvager) ==> after[k].job == crews[k].job
                    &&& (!b.rock && crews[k].role == Role::Miner) ==> after[k].job == crews[k].job
                    &&& (a is ToWork && (crews[k].role == Role::Survey || (b.rock && crews[k].role
                        == Role::Miner) || (!b.rock && crews[k].role == Role::Salvager)))
                        ==> after[k].job == Job::Work(b.id)
                }
        }),
{
}

/// Only a module asks for a bay: whether the yard takes a hull, a platform
/// or a fighter does not depend on whether a bay is free. A hull or a
/// platform is taken exactly when the wing, counting the queue, has a
/// station left and the bank covers the price; a fighter exactly when the
/// bank covers it; a module exactly when a bay is free and the bank covers
/// it.
pub proof fn law_only_a_module_asks_for_a_bay(
    q: Seq<OrderKind>,
    b: Bank,
    o: OrderKind,
    price: Yield,
    out: u32,
)
    ensures
        o != OrderKind::Fit ==> accepts(q, b, o, price, true, out) == accepts(
            q,
            b,
            o,
            price,
            false,
            out,
        ),
        (o == OrderKind::Hull || o == OrderKind::Platform) ==> (accepts(q, b, o, price, false, out)
            <==> out + coming(q) < WING_MAX && b.materials >= price.materials && b.volatiles
            >= price.volatiles && b.data >= price.data),
        accepts(q, b, OrderKind::Fighter, price, false, out) <==> (b.materials >= price.materials
            && b.volatiles >= price.volatiles && b.data >= price.data),
        accepts(q, b, OrderKind::Fit, price, false, out) == false,
        accepts(q, b, OrderKind::Fit, price, true, out) <==> (b.materials >= price.materials
            && b.volatiles >= price.volatiles && b.data >= price.data),
{
}

/// A scripted cue fires once: at the first tick at or past its mark, and
/// never again after that, whatever tick it is asked at.
pub proof fn law_cue_fires_once(t1: u32, t2: u32, at: Option<u32>, fired: bool)
    ensures
        cue_spec(t1, at, fired).0 ==> !cue_spec(t2, at, cue_spec(t1, at, fired).1).0,
        at matches Some(mark) && t1 >= mark ==> cue_spec(t1, at, fired).1,
{
}

proof fn lemma_decimal(n: nat)
    ensures
        all_digits(decimal(n)),
        digits_value(decimal(n)) == n,
        decimal(n).len() > 0,
        decimal(n)[0] != '+',
    decreases n,
{
    if n < 10 {
        assert(decimal(n) =~= seq![digit_char(n)]);
        assert(decimal(n).drop_last() =~= Seq::<char>::empty());
        assert(digits_value(Seq::<char>::empty()) == 0);
        assert(digit_of(digit_char(n)) == n);
        assert(digits_value(decimal(n)) == digits_value(decimal(n).drop_last()) * 10 + digit_of(
            decimal(n).last(),
        ));
    } else {
        lemma_decimal(n / 10);
        let d = n % 10;
        assert(decimal(n) == decimal(n / 10).push(digit_char(d)));
        assert(decimal(n).drop_last() =~= decimal(n / 10));
        assert(digit_of(digit_char(d)) == d);
        assert(decimal(n)[0] == decimal(n / 10)[0]);
        assert(digits_value(decimal(n)) == digits_value(decimal(n / 10)) * 10 + digit_of(
            decimal(n).last(),
        ));
        assert(decimal(n).last() == digit_char(d));
        assert((n / 10) * 10 + n % 10 == n);
    }
}

/// A number the library writes out is read back as the same number.
pub proof fn law_decimal_reads_back(n: nat, max: nat)
    requires
        n <= max,
    ensures
        spec_parse_unsigned(decimal(n), max) == Some(n),
{
    lemma_decimal(n);
    assert(unsigned_body(decimal(n)) == decimal(n));
}


/// Every switch of `a` is still on in `b`.
pub open spec fn switches_kept(a: ArgsView, b: ArgsView) -> bool {
    &&& a.headless ==> b.headless
    &&& a.hud ==> b.hud
    &&& a.paused ==> b.paused
    &&& a.delay_set ==> b.delay_set
    &&& a.watch_craft ==> b.watch_craft
    &&& a.showcase ==> b.showcase
    &&& a.fixed_dt ==> b.fixed_dt
    &&& a.sandbox ==> b.sandbox
    &&& a.play ==> b.play
    &&& a.retreat ==> b.retreat
    &&& a.base ==> b.base
    &&& a.onward ==> b.onward
}

proof fn lemma_group_8_keeps(a: ArgsView, flag: Seq<char>, v: Seq<char>)
    ensures
        step_8(a, flag, v) matches Ok((b, _)) ==> switches_kept(a, b),
{
}

proof fn lemma_group_7_keeps(a: ArgsView, flag: Seq<char>, v: Seq<char>)
    ensures
        step_7(a, flag, v) matches Ok((b, _)) ==> switches_kept(a, b),
{
    lemma_group_8_keeps(a, flag, v);
}

proof fn lemma_group_6_keeps(a: ArgsView, flag: Seq<char>, v: Seq<char>)
    ensures
        step_6(a, flag, v) matches Ok((b, _)) ==> switches_kept(a, b),
{
    lemma_group_7_keeps(a, flag, v);
}

proof fn lemma_group_5_keeps(a: ArgsView, flag: Seq<char>, v: Seq<char>)
    ensures
        step_5(a, flag, v) matches Ok((b, _)) ==> switches_kept(a, b),
{
    lemma_group_6_keeps(a, flag, v);
}

proof fn lemma_group_4_keeps(a: ArgsView, flag: Seq<char>, v: Seq<char>)
    ensures
        step_4(a, flag, v) matches Ok((b, _)) ==> switches_kept(a, b),
{
    lemma_group_5_keeps(a, flag, v);
}

proof fn lemma_group_3_keeps(a: ArgsView, flag: Seq<char>, v: Seq<char>)
    ensures
        step_3(a, flag, v) matches Ok((b, _)) ==> switches_kept(a, b),
{
    lemma_group_4_keeps(a, flag, v);
}

proof fn lemma_group_2_keeps(a: ArgsView, flag: Seq<char>, v: Seq<char>)
    ensures
        step_2(a, flag, v) matches Ok((b, _)) ==> switches_kept(a, b),
{
    lemma_group_3_keeps(a, flag, v);
}

/// No flag switches another off: a switch a flag turns on stays on.
pub proof fn law_flags_only_switch_on(a: ArgsView, flag: Seq<char>, v: Seq<char>)
    ensures
        step(a, flag, v) matches Ok((b, _)) ==> switches_kept(a, b),
{
    lemma_group_2_keeps(a, flag, v);
}

/// So whatever the rest of a line says, a switch on before it is on after.
pub proof fn law_line_only_switches_on(a: ArgsView, argv: Seq<Seq<char>>, i: int)
    ensures
        parse_from(a, argv, i) matches Ok(b) ==> switches_kept(a, b),
    decreases argv.len() + 1 - i,
{
    if 0 <= i < argv.len() {
        let v = if i + 1 < argv.len() {
            argv[i + 1]
        } else {
            Seq::empty()
        };
        law_flags_only_switch_on(a, argv[i], v);
        if let Ok((b, takes)) = step(a, argv[i], v) {
            law_line_only_switches_on(b, argv, if takes {
                i + 2
            } else {
                i + 1
            });
        }
    }
}

/// `--jump` is none of the flags matched before it.
proof fn lemma_reaches_jump(a: ArgsView, v: Seq<char>)
    ensures
        step(a, "--jump"@, v) == step_4(a, "--jump"@, v),
        "--jump"@ != "--retreat"@,
        "--jump"@ != "--base"@,
        "--jump"@ != "--run-seed"@,
        "--jump"@ != "--job"@,
        "--jump"@ != "--onward"@,
{
    reveal_strlit("--jump");
    reveal_strlit("--headless");
    assert("--jump"@.len() != "--headless"@.len());
    reveal_strlit("--motes");
    assert("--jump"@.len() != "--motes"@.len());
    reveal_strlit("--hull");
    assert("--jump"@[2] != "--hull"@[2]);
    reveal_strlit("--out");
    assert("--jump"@.len() != "--out"@.len());
    reveal_strlit("--frames");
    assert("--jump"@.len() != "--frames"@.len());
    reveal_strlit("--zoom");
    assert("--jump"@[2] != "--zoom"@[2]);
    reveal_strlit("--target");
    assert("--jump"@.len() != "--target"@.len());
    reveal_strlit("--size");
    assert("--jump"@[2] != "--size"@[2]);
    reveal_strlit("--chewers");
    assert("--jump"@.len() != "--chewers"@.len());
    reveal_strlit("--view");
    assert("--jump"@[2] != "--view"@[2]);
    reveal_strlit("--panel");
    assert("--jump"@.len() != "--panel"@.len());
    reveal_strlit("--build");
    assert("--jump"@.len() != "--build"@.len());
    reveal_strlit("--wreck");
    assert("--jump"@.len() != "--wreck"@.len());
    reveal_strlit("--explode");
    assert("--jump"@.len() != "--explode"@.len());
    reveal_strlit("--cadence");
    assert("--jump"@.len() != "--cadence"@.len());
    reveal_strlit("--fixed-dt");
    assert("--jump"@.len() != "--fixed-dt"@.len());
    reveal_strlit("--screen");
    assert("--jump"@.len() != "--screen"@.len());
    reveal_strlit("--sandbox");
    assert("--jump"@.len() != "--sandbox"@.len());
    reveal_strlit("--retreat");
    assert("--jump"@.len() != "--retreat"@.len());
    reveal_strlit("--base");
    assert("--jump"@[2] != "--base"@[2]);
    reveal_strlit("--run-seed");
    assert("--jump"@.len() != "--run-seed"@.len());
    reveal_strlit("--job");
    assert("--jump"@.len() != "--job"@.len());
    reveal_strlit("--onward");
    assert("--jump"@.len() != "--onward"@.len());
}

/// `--support` is none of the flags matched before it.
proof fn lemma_reaches_support(a: ArgsView, v: Seq<char>)
    ensures
        step(a, "--support"@, v) == step_5(a, "--support"@, v),
{
    reveal_strlit("--support");
    reveal_strlit("--headless");
    assert("--support"@.len() != "--headless"@.len());
    reveal_strlit("--motes");
    assert("--support"@.len() != "--motes"@.len());
    reveal_strlit("--hull");
    assert("--support"@.len() != "--hull"@.len());
    reveal_strlit("--out");
    assert("--support"@.len() != "--out"@.len());
    reveal_strlit("--frames");
    assert("--support"@.len() != "--frames"@.len());
    reveal_strlit("--zoom");
    assert("--support"@.len() != "--zoom"@.len());
    reveal_strlit("--target");
    assert("--support"@.len() != "--target"@.len());
    reveal_strlit("--size");
    assert("--support"@.len() != "--size"@.len());
    reveal_strlit("--chewers");
    assert("--support"@[2] != "--chewers"@[2]);
    reveal_strlit("--view");
    assert("--support"@.len() != "--view"@.len());
    reveal_strlit("--panel");
    assert("--support"@.len() != "--panel"@.len());
    reveal_strlit("--build");
    assert("--support"@.len() != "--build"@.len());
    reveal_strlit("--wreck");
    assert("--support"@.len() != "--wreck"@.len());
    reveal_strlit("--explode");
    assert("--support"@[2] != "--explode"@[2]);
    reveal_strlit("--cadence");
    assert("--support"@[2] != "--cadence"@[2]);
    reveal_strlit("--fixed-dt");
    assert("--support"@.len() != "--fixed-dt"@.len());
    reveal_strlit("--screen");
    assert("--support"@.len() != "--screen"@.len());
    reveal_strlit("--sandbox");
    assert("--support"@[3] != "--sandbox"@[3]);
    reveal_strlit("--retreat");
    assert("--support"@[2] != "--retreat"@[2]);
    reveal_strlit("--base");
    assert("--support"@.len() != "--base"@.len());
    reveal_strlit("--run-seed");
    assert("--support"@.len() != "--run-seed"@.len());
    reveal_strlit("--job");
    assert("--support"@.len() != "--job"@.len());
    reveal_strlit("--onward");
    assert("--support"@.len() != "--onward"@.len());
    reveal_strlit("--jump");
    assert("--support"@.len() != "--jump"@.len());
}

/// `--onward` is none of the flags matched before it.
proof fn lemma_reaches_onward(a: ArgsView, v: Seq<char>)
    ensures
        step(a, "--onward"@, v) == step_4(a, "--onward"@, v),
        "--onward"@ != "--retreat"@,
        "--onward"@ != "--base"@,
        "--onward"@ != "--run-seed"@,
        "--onward"@ != "--job"@,
{
    reveal_strlit("--onward");
    reveal_strlit("--headless");
    assert("--onward"@.len() != "--headless"@.len());
    reveal_strlit("--motes");
    assert("--onward"@.len() != "--motes"@.len());
    reveal_strlit("--hull");
    assert("--onward"@.len() != "--hull"@.len());
    reveal_strlit("--out");
    assert("--onward"@.len() != "--out"@.len());
    reveal_strlit("--frames");
    assert("--onward"@[2] != "--frames"@[2]);
    reveal_strlit("--zoom");
    assert("--onward"@.len() != "--zoom"@.len());
    reveal_strlit("--target");
    assert("--onward"@[2] != "--target"@[2]);
    reveal_strlit("--size");
    assert("--onward"@.len() != "--size"@.len());
    reveal_strlit("--chewers");
    assert("--onward"@.len() != "--chewers"@.len());
    reveal_strlit("--view");
    assert("--onward"@.len() != "--view"@.len());
    reveal_strlit("--panel");
    assert("--onward"@.len() != "--panel"@.len());
    reveal_strlit("--build");
    assert("--onward"@.len() != "--build"@.len());
    reveal_strlit("--wreck");
    assert("--onward"@.len() != "--wreck"@.len());
    reveal_strlit("--explode");
    assert("--onward"@.len() != "--explode"@.len());
    reveal_strlit("--cadence");
    assert("--onward"@.len() != "--cadence"@.len());
    reveal_strlit("--fixed-dt");
    assert("--onward"@.len() != "--fixed-dt"@.len());
    reveal_strlit("--screen");
    assert("--onward"@[2] != "--screen"@[2]);
    reveal_strlit("--sandbox");
    assert("--onward"@.len() != "--sandbox"@.len());
    reveal_strlit("--retreat");
    assert("--onward"@.len() != "--retreat"@.len());
    reveal_strlit("--base");
    assert("--onward"@.len() != "--base"@.len());
    reveal_strlit("--run-seed");
    assert("--onward"@.len() != "--run-seed"@.len());
    reveal_strlit("--job");
    assert("--onward"@.len() != "--job"@.len());
}

/// `--fire` is none of the flags matched before it.
proof fn lemma_reaches_fire(a: ArgsView, v: Seq<char>)
    ensures
        step(a, "--fire"@, v) == step_5(a, "--fire"@, v),
        "--fire"@ != "--support"@,
        "--fire"@ != "--play"@,
        "--fire"@ != "--target-hull"@,
        "--fire"@ != "--seed"@,
        "--fire"@ != "--stand"@,
{
    reveal_strlit("--fire");
    reveal_strlit("--headless");
    assert("--fire"@.len() != "--headless"@.len());
    reveal_strlit("--motes");
    assert("--fire"@.len() != "--motes"@.len());
    reveal_strlit("--hull");
    assert("--fire"@[2] != "--hull"@[2]);
    reveal_strlit("--out");
    assert("--fire"@.len() != "--out"@.len());
    reveal_strlit("--frames");
    assert("--fire"@.len() != "--frames"@.len());
    reveal_strlit("--zoom");
    assert("--fire"@[2] != "--zoom"@[2]);
    reveal_strlit("--target");
    assert("--fire"@.len() != "--target"@.len());
    reveal_strlit("--size");
    assert("--fire"@[2] != "--size"@[2]);
    reveal_strlit("--chewers");
    assert("--fire"@.len() != "--chewers"@.len());
    reveal_strlit("--view");
    assert("--fire"@[2] != "--view"@[2]);
    reveal_strlit("--panel");
    assert("--fire"@.len() != "--panel"@.len());
    reveal_strlit("--build");
    assert("--fire"@.len() != "--build"@.len());
    reveal_strlit("--wreck");
    assert("--fire"@.len() != "--wreck"@.len());
    reveal_strlit("--explode");
    assert("--fire"@.len() != "--explode"@.len());
    reveal_strlit("--cadence");
    assert("--fire"@.len() != "--cadence"@.len());
    reveal_strlit("--fixed-dt");
    assert("--fire"@.len() != "--fixed-dt"@.len());
    reveal_strlit("--screen");
    assert("--fire"@.len() != "--screen"@.len());
    reveal_strlit("--sandbox");
    assert("--fire"@.len() != "--sandbox"@.len());
    reveal_strlit("--retreat");
    assert("--fire"@.len() != "--retreat"@.len());
    reveal_strlit("--base");
    assert("--fire"@[2] != "--base"@[2]);
    reveal_strlit("--run-seed");
    assert("--fire"@.len() != "--run-seed"@.len());
    reveal_strlit("--job");
    assert("--fire"@.len() != "--job"@.len());
    reveal_strlit("--onward");
    assert("--fire"@.len() != "--onward"@.len());
    reveal_strlit("--jump");
    assert("--fire"@[2] != "--jump"@[2]);
    reveal_strlit("--support");
    assert("--fire"@.len() != "--support"@.len());
    reveal_strlit("--play");
    assert("--fire"@[2] != "--play"@[2]);
    reveal_strlit("--target-hull");
    assert("--fire"@.len() != "--target-hull"@.len());
    reveal_strlit("--seed");
    assert("--fire"@[2] != "--seed"@[2]);
    reveal_strlit("--stand");
    assert("--fire"@.len() != "--stand"@.len());
}

/// `--blast` is none of the flags matched before it.
proof fn lemma_reaches_blast(a: ArgsView, v: Seq<char>)
    ensures
        step(a, "--blast"@, v) == step_6(a, "--blast"@, v),
{
    reveal_strlit("--blast");
    reveal_strlit("--headless");
    assert("--blast"@.len() != "--headless"@.len());
    reveal_strlit("--motes");
    assert("--blast"@[2] != "--motes"@[2]);
    reveal_strlit("--hull");
    assert("--blast"@.len() != "--hull"@.len());
    reveal_strlit("--out");
    assert("--blast"@.len() != "--out"@.len());
    reveal_strlit("--frames");
    assert("--blast"@.len() != "--frames"@.len());
    reveal_strlit("--zoom");
    assert("--blast"@.len() != "--zoom"@.len());
    reveal_strlit("--target");
    assert("--blast"@.len() != "--target"@.len());
    reveal_strlit("--size");
    assert("--blast"@.len() != "--size"@.len());
    reveal_strlit("--chewers");
    assert("--blast"@.len() != "--chewers"@.len());
    reveal_strlit("--view");
    assert("--blast"@.len() != "--view"@.len());
    reveal_strlit("--panel");
    assert("--blast"@[2] != "--panel"@[2]);
    reveal_strlit("--build");
    assert("--blast"@[3] != "--build"@[3]);
    reveal_strlit("--wreck");
    assert("--blast"@[2] != "--wreck"@[2]);
    reveal_strlit("--explode");
    assert("--blast"@.len() != "--explode"@.len());
    reveal_strlit("--cadence");
    assert("--blast"@.len() != "--cadence"@.len());
    reveal_strlit("--fixed-dt");
    assert("--blast"@.len() != "--fixed-dt"@.len());
    reveal_strlit("--screen");
    assert("--blast"@.len() != "--screen"@.len());
    reveal_strlit("--sandbox");
    assert("--blast"@.len() != "--sandbox"@.len());
    reveal_strlit("--retreat");
    assert("--blast"@.len() != "--retreat"@.len());
    reveal_strlit("--base");
    assert("--blast"@.len() != "--base"@.len());
    reveal_strlit("--run-seed");
    assert("--blast"@.len() != "--run-seed"@.len());
    reveal_strlit("--job");
    assert("--blast"@.len() != "--job"@.len());
    reveal_strlit("--onward");
    assert("--blast"@.len() != "--onward"@.len());
    reveal_strlit("--jump");
    assert("--blast"@.len() != "--jump"@.len());
    reveal_strlit("--support");
    assert("--blast"@.len() != "--support"@.len());
    reveal_strlit("--play");
    assert("--blast"@.len() != "--play"@.len());
    reveal_strlit("--target-hull");
    assert("--blast"@.len() != "--target-hull"@.len());
    reveal_strlit("--seed");
    assert("--blast"@.len() != "--seed"@.len());
    reveal_strlit("--stand");
    assert("--blast"@[2] != "--stand"@[2]);
    reveal_strlit("--fire");
    assert("--blast"@.len() != "--fire"@.len());
}

/// `--screen` is none of the flags matched before it.
proof fn lemma_reaches_screen(a: ArgsView, v: Seq<char>)
    ensures
        step(a, "--screen"@, v) == step_3(a, "--screen"@, v),
        "--screen"@ != "--wreck"@,
        "--screen"@ != "--explode"@,
        "--screen"@ != "--cadence"@,
        "--screen"@ != "--fixed-dt"@,
{
    reveal_strlit("--screen");
    reveal_strlit("--headless");
    assert("--screen"@.len() != "--headless"@.len());
    reveal_strlit("--motes");
    assert("--screen"@.len() != "--motes"@.len());
    reveal_strlit("--hull");
    assert("--screen"@.len() != "--hull"@.len());
    reveal_strlit("--out");
    assert("--screen"@.len() != "--out"@.len());
    reveal_strlit("--frames");
    assert("--screen"@[2] != "--frames"@[2]);
    reveal_strlit("--zoom");
    assert("--screen"@.len() != "--zoom"@.len());
    reveal_strlit("--target");
    assert("--screen"@[2] != "--target"@[2]);
    reveal_strlit("--size");
    assert("--screen"@.len() != "--size"@.len());
    reveal_strlit("--chewers");
    assert("--screen"@.len() != "--chewers"@.len());
    reveal_strlit("--view");
    assert("--screen"@.len() != "--view"@.len());
    reveal_strlit("--panel");
    assert("--screen"@.len() != "--panel"@.len());
    reveal_strlit("--build");
    assert("--screen"@.len() != "--build"@.len());
    reveal_strlit("--wreck");
    assert("--screen"@.len() != "--wreck"@.len());
    reveal_strlit("--explode");
    assert("--screen"@.len() != "--explode"@.len());
    reveal_strlit("--cadence");
    assert("--screen"@.len() != "--cadence"@.len());
    reveal_strlit("--fixed-dt");
    assert("--screen"@.len() != "--fixed-dt"@.len());
}

/// `--paused` is none of the flags matched before it.
proof fn lemma_reaches_paused(a: ArgsView, v: Seq<char>)
    ensures
        step(a, "--paused"@, v) == step_7(a, "--paused"@, v),
        "--paused"@ != "--watch-craft"@,
        "--paused"@ != "--yaw"@,
        "--paused"@ != "--pitch"@,
{
    reveal_strlit("--paused");
    reveal_strlit("--headless");
    assert("--paused"@.len() != "--headless"@.len());
    reveal_strlit("--motes");
    assert("--paused"@.len() != "--motes"@.len());
    reveal_strlit("--hull");
    assert("--paused"@.len() != "--hull"@.len());
    reveal_strlit("--out");
    assert("--paused"@.len() != "--out"@.len());
    reveal_strlit("--frames");
    assert("--paused"@[2] != "--frames"@[2]);
    reveal_strlit("--zoom");
    assert("--paused"@.len() != "--zoom"@.len());
    reveal_strlit("--target");
    assert("--paused"@[2] != "--target"@[2]);
    reveal_strlit("--size");
    assert("--paused"@.len() != "--size"@.len());
    reveal_strlit("--chewers");
    assert("--paused"@.len() != "--chewers"@.len());
    reveal_strlit("--view");
    assert("--paused"@.len() != "--view"@.len());
    reveal_strlit("--panel");
    assert("--paused"@.len() != "--panel"@.len());
    reveal_strlit("--build");
    assert("--paused"@.len() != "--build"@.len());
    reveal_strlit("--wreck");
    assert("--paused"@.len() != "--wreck"@.len());
    reveal_strlit("--explode");
    assert("--paused"@.len() != "--explode"@.len());
    reveal_strlit("--cadence");
    assert("--paused"@.len() != "--cadence"@.len());
    reveal_strlit("--fixed-dt");
    assert("--paused"@.len() != "--fixed-dt"@.len());
    reveal_strlit("--screen");
    assert("--paused"@[2] != "--screen"@[2]);
    reveal_strlit("--sandbox");
    assert("--paused"@.len() != "--sandbox"@.len());
    reveal_strlit("--retreat");
    assert("--paused"@.len() != "--retreat"@.len());
    reveal_strlit("--base");
    assert("--paused"@.len() != "--base"@.len());
    reveal_strlit("--run-seed");
    assert("--paused"@.len() != "--run-seed"@.len());
    reveal_strlit("--job");
    assert("--paused"@.len() != "--job"@.len());
    reveal_strlit("--onward");
    assert("--paused"@[2] != "--onward"@[2]);
    reveal_strlit("--jump");
    assert("--paused"@.len() != "--jump"@.len());
    reveal_strlit("--support");
    assert("--paused"@.len() != "--support"@.len());
    reveal_strlit("--play");
    assert("--paused"@.len() != "--play"@.len());
    reveal_strlit("--target-hull");
    assert("--paused"@.len() != "--target-hull"@.len());
    reveal_strlit("--seed");
    assert("--paused"@.len() != "--seed"@.len());
    reveal_strlit("--stand");
    assert("--paused"@.len() != "--stand"@.len());
    reveal_strlit("--fire");
    assert("--paused"@.len() != "--fire"@.len());
    reveal_strlit("--blast");
    assert("--paused"@.len() != "--blast"@.len());
    reveal_strlit("--hives");
    assert("--paused"@.len() != "--hives"@.len());
    reveal_strlit("--move");
    assert("--paused"@.len() != "--move"@.len());
    reveal_strlit("--aim");
    assert("--paused"@.len() != "--aim"@.len());
    reveal_strlit("--showcase");
    assert("--paused"@.len() != "--showcase"@.len());
    reveal_strlit("--hud");
    assert("--paused"@.len() != "--hud"@.len());
    reveal_strlit("--watch-craft");
    assert("--paused"@.len() != "--watch-craft"@.len());
    reveal_strlit("--yaw");
    assert("--paused"@.len() != "--yaw"@.len());
    reveal_strlit("--pitch");
    assert("--paused"@.len() != "--pitch"@.len());
}

/// `--launch-delay` is none of the flags matched before it.
proof fn lemma_reaches_launch_delay(a: ArgsView, v: Seq<char>)
    ensures
        step(a, "--launch-delay"@, v) == step_8(a, "--launch-delay"@, v),
{
    reveal_strlit("--launch-delay");
    reveal_strlit("--headless");
    assert("--launch-delay"@.len() != "--headless"@.len());
    reveal_strlit("--motes");
    assert("--launch-delay"@.len() != "--motes"@.len());
    reveal_strlit("--hull");
    assert("--launch-delay"@.len() != "--hull"@.len());
    reveal_strlit("--out");
    assert("--launch-delay"@.len() != "--out"@.len());
    reveal_strlit("--frames");
    assert("--launch-delay"@.len() != "--frames"@.len());
    reveal_strlit("--zoom");
    assert("--launch-delay"@.len() != "--zoom"@.len());
    reveal_strlit("--target");
    assert("--launch-delay"@.len() != "--target"@.len());
    reveal_strlit("--size");
    assert("--launch-delay"@.len() != "--size"@.len());
    reveal_strlit("--chewers");
    assert("--launch-delay"@.len() != "--chewers"@.len());
    reveal_strlit("--view");
    assert("--launch-delay"@.len() != "--view"@.len());
    reveal_strlit("--panel");
    assert("--launch-delay"@.len() != "--panel"@.len());
    reveal_strlit("--build");
    assert("--launch-delay"@.len() != "--build"@.len());
    reveal_strlit("--wreck");
    assert("--launch-delay"@.len() != "--wreck"@.len());
    reveal_strlit("--explode");
    assert("--launch-delay"@.len() != "--explode"@.len());
    reveal_strlit("--cadence");
    assert("--launch-delay"@.len() != "--cadence"@.len());
    reveal_strlit("--fixed-dt");
    assert("--launch-delay"@.len() != "--fixed-dt"@.len());
    reveal_strlit("--screen");
    assert("--launch-delay"@.len() != "--screen"@.len());
    reveal_strlit("--sandbox");
    assert("--launch-delay"@.len() != "--sandbox"@.len());
    reveal_strlit("--retreat");
    assert("--launch-delay"@.len() != "--retreat"@.len());
    reveal_strlit("--base");
    assert("--launch-delay"@.len() != "--base"@.len());
    reveal_strlit("--run-seed");
    assert("--launch-delay"@.len() != "--run-seed"@.len());
    reveal_strlit("--job");
    assert("--launch-delay"@.len() != "--job"@.len());
    reveal_strlit("--onward");
    assert("--launch-delay"@.len() != "--onward"@.len());
    reveal_strlit("--jump");
    assert("--launch-delay"@.len() != "--jump"@.len());
    reveal_strlit("--support");
    assert("--launch-delay"@.len() != "--support"@.len());
    reveal_strlit("--play");
    assert("--launch-delay"@.len() != "--play"@.len());
    reveal_strlit("--target-hull");
    assert("--launch-delay"@.len() != "--target-hull"@.len());
    reveal_strlit("--seed");
    assert("--launch-delay"@.len() != "--seed"@.len());
    reveal_strlit("--stand");
    assert("--launch-delay"@.len() != "--stand"@.len());
    reveal_strlit("--fire");
    assert("--launch-delay"@.len() != "--fire"@.len());
    reveal_strlit("--blast");
    assert("--launch-delay"@.len() != "--blast"@.len());
    reveal_strlit("--hives");
    assert("--launch-delay"@.len() != "--hives"@.len());
    reveal_strlit("--move");
    assert("--launch-delay"@.len() != "--move"@.len());
    reveal_strlit("--aim");
    assert("--launch-delay"@.len() != "--aim"@.len());
    reveal_strlit("--showcase");
    assert("--launch-delay"@.len() != "--showcase"@.len());
    reveal_strlit("--hud");
    assert("--launch-delay"@.len() != "--hud"@.len());
    reveal_strlit("--watch-craft");
    assert("--launch-delay"@.len() != "--watch-craft"@.len());
    reveal_strlit("--yaw");
    assert("--launch-delay"@.len() != "--yaw"@.len());
    reveal_strlit("--pitch");
    assert("--launch-delay"@.len() != "--pitch"@.len());
    reveal_strlit("--paused");
    assert("--launch-delay"@.len() != "--paused"@.len());
    reveal_strlit("--reinforce");
    assert("--launch-delay"@.len() != "--reinforce"@.len());
    reveal_strlit("--rocks");
    assert("--launch-delay"@.len() != "--rocks"@.len());
}

/// The flags that make a mode: a scripted jump, a fleet of support ships
/// or going onward make a retreat; a scripted shot or blast makes a
/// sandbox; a screen, or starting paused, draws the HUD; and a launch delay
/// given is a launch delay that was set.
pub proof fn law_flags_imply_modes(a: ArgsView, v: Seq<char>)
    ensures
        step(a, "--jump"@, v) matches Ok((b, _)) ==> b.retreat && b.jump is Some,
        step(a, "--support"@, v) matches Ok((b, _)) ==> b.retreat,
        step(a, "--onward"@, v) matches Ok((b, _)) ==> b.retreat && b.onward,
        step(a, "--fire"@, v) matches Ok((b, _)) ==> b.sandbox && b.fire is Some,
        step(a, "--blast"@, v) matches Ok((b, _)) ==> b.sandbox && b.blast is Some,
        step(a, "--screen"@, v) matches Ok((b, _)) ==> b.hud && b.screen == Some(v),
        step(a, "--paused"@, v) matches Ok((b, _)) ==> b.hud && b.paused,
        step(a, "--launch-delay"@, v) matches Ok((b, _)) ==> b.delay_set,
{
    lemma_reaches_jump(a, v);
    lemma_reaches_support(a, v);
    lemma_reaches_onward(a, v);
    lemma_reaches_fire(a, v);
    lemma_reaches_blast(a, v);
    lemma_reaches_screen(a, v);
    lemma_reaches_paused(a, v);
    lemma_reaches_launch_delay(a, v);
}

} // verus!
