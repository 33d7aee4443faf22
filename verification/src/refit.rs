//! What the bank buys between systems, and what a run carries into the next
//! one.
//!
//! Two currencies and they do different jobs. Materials buy hulls and hull
//! plating; data buys the right to buy: a role the yard has never built, or
//! the next rung of the flagship's own navy.

use vstd::prelude::*;
use crate::bank::{DATA_CUBE, ORE_CUBE};
use crate::roles::{all_roles, role_order, spec_label, Role};
use crate::run::RunState;
use crate::text::{
    append_chars, chars_of, decimal, decimal_of, replace_char, same_chars, spec_replace,
    spec_split_once, split_once, string_of,
};

verus! {

broadcast use vstd::string::group_string_axioms;

/// One thing the refit screen offers.
#[derive(Clone, PartialEq, Debug)]
pub enum Buy {
    /// Weld the flagship's scars shut.
    Repair,
    /// One more of the flagship's class, flying as an escort.
    Escort,
    /// A support ship of a role the yard has unlocked.
    Ship(Role),
    /// A role the yard has never built.
    Research(Role),
    /// The next rung of the flagship's own navy.
    Refit(String),
}

/// A `Buy` as the contracts read it.
pub enum BuyView {
    Repair,
    Escort,
    Ship(Role),
    Research(Role),
    Refit(Seq<char>),
}

impl View for Buy {
    type V = BuyView;

    open spec fn view(&self) -> BuyView {
        match self {
            Buy::Repair => BuyView::Repair,
            Buy::Escort => BuyView::Escort,
            Buy::Ship(r) => BuyView::Ship(*r),
            Buy::Research(r) => BuyView::Research(*r),
            Buy::Refit(k) => BuyView::Refit(k@),
        }
    }
}

/// What an escort, a support ship, a piece of research and a refit cost.
pub const ESCORT_COST: u32 = 2 * ORE_CUBE;

pub const SHIP_COST: u32 = ORE_CUBE;

pub const RESEARCH_COST: u32 = DATA_CUBE;

pub const REFIT_MATERIALS: u32 = 4 * ORE_CUBE;

pub const REFIT_DATA: u32 = 2 * DATA_CUBE;

/// A repair is priced by the cell it welds.
pub const REPAIR_PER_CELL: u32 = 1;

/// What a purchase costs, as (materials, data), for a flagship carrying
/// this many scars.
pub open spec fn spec_price(b: BuyView, scars: nat) -> (u32, u32) {
    match b {
        BuyView::Repair => (scars as u32, 0),
        BuyView::Escort => (ESCORT_COST, 0),
        BuyView::Ship(_) => (SHIP_COST, 0),
        BuyView::Research(_) => (0, RESEARCH_COST),
        BuyView::Refit(_) => (REFIT_MATERIALS, REFIT_DATA),
    }
}

/// Whether the run's bank covers a price.
pub open spec fn can_pay(run: RunState, price: (u32, u32)) -> bool {
    run.bank.materials >= price.0 && run.bank.data >= price.1
}

/// The run after a purchase it could pay for: the price out of the bank,
/// and the one thing bought.
pub open spec fn bought(b: BuyView, run: RunState, after: RunState) -> bool {
    let (m, d) = spec_price(b, run.scars@.len());
    let paid = crate::bank::Bank {
        materials: (run.bank.materials - m) as u32,
        data: (run.bank.data - d) as u32,
        ..run.bank
    };
    match b {
        BuyView::Repair => after.scars@.len() == 0 && after == (RunState {
            bank: paid,
            scars: after.scars,
            ..run
        }),
        BuyView::Escort => after == (RunState {
            bank: paid,
            escorts: (run.escorts + 1) as u32,
            ..run
        }),
        BuyView::Ship(r) => after.fleet@ == run.fleet@.push(r) && after == (RunState {
            bank: paid,
            fleet: after.fleet,
            ..run
        }),
        BuyView::Research(r) => after.unlocked@ == run.unlocked@.push(r) && after == (
        RunState { bank: paid, unlocked: after.unlocked, ..run }),
        BuyView::Refit(k) => after.flagship@ == k && after == (RunState {
            bank: paid,
            flagship: after.flagship,
            ..run
        }),
    }
}

/// A class key as a person reads it.
pub open spec fn spec_hull_label(key: Seq<char>) -> Seq<char> {
    spec_replace(key, '_', ' ')
}

/// What the screen calls a purchase.
pub open spec fn spec_buy_label(b: BuyView, run: RunState) -> Seq<char> {
    match b {
        BuyView::Repair => "Weld "@ + decimal(run.scars@.len()) + " cells"@,
        BuyView::Escort => "Another "@ + spec_hull_label(run.flagship@),
        BuyView::Ship(r) => "Build a "@ + spec_label(r),
        BuyView::Research(r) => "Research the "@ + spec_label(r),
        BuyView::Refit(k) => "Refit to a "@ + spec_hull_label(k),
    }
}

impl Buy {
    pub fn price(&self, run: &RunState) -> (p: (u32, u32))
        ensures
            p == spec_price(self@, run.scars@.len()),
    {
        match self {
            Buy::Repair => (run.scars.len() as u32 * REPAIR_PER_CELL, 0),
            Buy::Escort => (ESCORT_COST, 0),
            Buy::Ship(_) => (SHIP_COST, 0),
            Buy::Research(_) => (0, RESEARCH_COST),
            Buy::Refit(_) => (REFIT_MATERIALS, REFIT_DATA),
        }
    }

    pub fn label(&self, run: &RunState) -> (s: String)
        ensures
            s@ == spec_buy_label(self@, *run),
    {
        let mut out: Vec<char>;
        match self {
            Buy::Repair => {
                out = chars_of("Weld ");
                append_chars(&mut out, &decimal_of(run.scars.len() as u64));
                append_chars(&mut out, &chars_of(" cells"));
            },
            Buy::Escort => {
                out = chars_of("Another ");
                append_chars(&mut out, &chars_of(hull_label(run.flagship.as_str()).as_str()));
            },
            Buy::Ship(r) => {
                out = chars_of("Build a ");
                append_chars(&mut out, &chars_of(r.label()));
            },
            Buy::Research(r) => {
                out = chars_of("Research the ");
                append_chars(&mut out, &chars_of(r.label()));
            },
            Buy::Refit(k) => {
                out = chars_of("Refit to a ");
                append_chars(&mut out, &chars_of(hull_label(k.as_str()).as_str()));
            },
        }
        string_of(&out)
    }

    /// Spend it. Answers whether it happened: nothing is taken, and nothing
    /// changes, when the bank cannot pay the whole price.
    pub fn take(&self, run: &mut RunState) -> (paid: bool)
        requires
            self@ is Escort && can_pay(*old(run), spec_price(self@, old(run).scars@.len()))
                ==> old(run).escorts < u32::MAX,
        ensures
            paid == can_pay(*old(run), spec_price(self@, old(run).scars@.len())),
            paid ==> bought(self@, *old(run), *final(run)),
            !paid ==> *final(run) == *old(run),
    {
        let (m, d) = self.price(run);
        if run.bank.materials < m || run.bank.data < d {
            return false;
        }
        run.bank.materials = run.bank.materials - m;
        run.bank.data = run.bank.data - d;
        match self {
            Buy::Repair => {
                run.scars = Vec::new();
            },
            Buy::Escort => {
                run.escorts = run.escorts + 1;
            },
            Buy::Ship(r) => {
                run.fleet.push(*r);
            },
            Buy::Research(r) => {
                run.unlocked.push(*r);
            },
            Buy::Refit(k) => {
                run.flagship = k.clone();
            },
        }
        true
    }
}

/// One class on the shelf: its key and the name it is shown by.
#[derive(Clone, Debug)]
pub struct HullEntry {
    pub key: String,
    pub label: String,
}

/// Every class in the fleet's hull list, navy by navy up the rungs.
#[derive(Clone, Debug)]
pub struct Fleet(pub Vec<HullEntry>);

/// The class keys of a fleet, in its order.
pub open spec fn fleet_keys(f: Fleet) -> Seq<Seq<char>> {
    f.0@.map_values(|h: HullEntry| h.key@)
}

/// Whether `at` is where `from` first stands on the shelf.
pub open spec fn first_key(keys: Seq<Seq<char>>, from: Seq<char>, at: int) -> bool {
    &&& 0 <= at < keys.len()
    &&& keys[at] == from
    &&& forall|i: int| 0 <= i < at ==> keys[i] != from
}

/// Whether a class key is of `navy`: the navy is what comes before the
/// key's first underscore.
pub open spec fn of_navy(key: Seq<char>, navy: Seq<char>) -> bool {
    spec_split_once(key, '_') matches Some((n, _)) && n == navy
}

/// Whether `j` is the first class after `at` that is of `navy`.
pub open spec fn rung_after(keys: Seq<Seq<char>>, navy: Seq<char>, at: int, j: int) -> bool {
    &&& at < j < keys.len()
    &&& of_navy(keys[j], navy)
    &&& forall|k: int| at < k < j ==> !of_navy(#[trigger] keys[k], navy)
}

/// Whether a key is of the navy named.
fn navy_is(key: &Vec<char>, navy: &Vec<char>) -> (b: bool)
    ensures
        b == of_navy(key@, navy@),
{
    match split_once(key, '_') {
        Some((n, _)) => same_chars(&n, navy),
        None => false,
    }
}

/// The next class up the same navy's ladder: the navy is what comes before
/// the first underscore of the key, and the next rung is the first class
/// after this one on the shelf of that same navy.
pub open spec fn spec_next_rung(from: Seq<char>, keys: Seq<Seq<char>>) -> Option<Seq<char>> {
    match spec_split_once(from, '_') {
        None => None,
        Some((navy, _)) => if exists|at: int| first_key(keys, from, at) {
            let at = choose|at: int| first_key(keys, from, at);
            if exists|j: int| rung_after(keys, navy, at, j) {
                Some(keys[choose|j: int| rung_after(keys, navy, at, j)])
            } else {
                None
            }
        } else {
            None
        },
    }
}

/// The next class up the same navy's ladder, or nothing at the top of it.
pub fn next_rung(from: &str, fleet: &Fleet) -> (r: Option<String>)
    ensures
        match r {
            Some(k) => spec_next_rung(from@, fleet_keys(*fleet)) == Some(k@),
            None => spec_next_rung(from@, fleet_keys(*fleet)) is None,
        },
{
    let ghost keys = fleet_keys(*fleet);
    let want = chars_of(from);
    let navy = match split_once(&want, '_') {
        Some((n, _)) => n,
        None => return None,
    };
    let shelf = &fleet.0;
    let at = match find_key(shelf, &want) {
        Some(a) => a,
        None => {
            assert(!exists|a: int| first_key(keys, from@, a)) by {
                if exists|a: int| first_key(keys, from@, a) {
                    let a = choose|a: int| first_key(keys, from@, a);
                    assert(keys[a] == shelf@[a].key@);
                }
            }
            return None;
        },
    };
    assert(keys[at as int] == shelf@[at as int].key@);
    proof {
        let a = choose|a: int| first_key(keys, from@, a);
        assert(first_key(keys, from@, at as int));
        assert(a == at as int) by {
            if a < at as int {
                assert(keys[a] != from@);
            } else if a > at as int {
                assert(keys[at as int] != from@);
            }
        }
    }
    assert(at < shelf.len());
    let mut j: usize = at + 1;
    while j < shelf.len()
        invariant
            keys == fleet_keys(*fleet),
            spec_split_once(from@, '_') matches Some((nv, _)) && nv == navy@,
            first_key(keys, from@, at as int),
            (choose|a: int| first_key(keys, from@, a)) == at as int,
            *shelf == fleet.0,
            at < j <= shelf@.len(),
            forall|k: int| at < k < j ==> !of_navy(#[trigger] keys[k], navy@),
        decreases shelf.len() - j,
    {
        let key = chars_of(shelf[j].key.as_str());
        assert(keys[j as int] == shelf@[j as int].key@);
        if navy_is(&key, &navy) {
            proof {
                assert(rung_after(keys, navy@, at as int, j as int));
                let b = choose|b: int| rung_after(keys, navy@, at as int, b);
                assert(b == j as int) by {
                    if b < j as int {
                        assert(!of_navy(keys[b], navy@));
                    } else if b > j as int {
                        assert(!of_navy(keys[j as int], navy@));
                    }
                }
            }
            return Some(shelf[j].key.clone());
        }
        j = j + 1;
    }
    assert(!exists|b: int| rung_after(keys, navy@, at as int, b)) by {
        if exists|b: int| rung_after(keys, navy@, at as int, b) {
            let b = choose|b: int| rung_after(keys, navy@, at as int, b);
            assert(of_navy(keys[b], navy@));
        }
    }
    None
}

/// Where a class first stands on the shelf.
fn find_key(shelf: &Vec<HullEntry>, want: &Vec<char>) -> (r: Option<usize>)
    ensures
        match r {
            Some(a) => a < shelf@.len() && shelf@[a as int].key@ == want@ && forall|i: int|
                0 <= i < a ==> shelf@[i].key@ != want@,
            None => forall|i: int| 0 <= i < shelf@.len() ==> shelf@[i].key@ != want@,
        },
{
    let mut at: usize = 0;
    while at < shelf.len()
        invariant
            at <= shelf@.len(),
            forall|i: int| 0 <= i < at ==> shelf@[i].key@ != want@,
        decreases shelf.len() - at,
    {
        let key = chars_of(shelf[at].key.as_str());
        if same_chars(&key, want) {
            return Some(at);
        }
        at = at + 1;
    }
    None
}

/// A class key as a person reads it.
pub fn hull_label(key: &str) -> (s: String)
    ensures
        s@ == spec_hull_label(key@),
{
    string_of(&replace_char(&chars_of(key), '_', ' '))
}

/// The roles of `order` that are not in `have`, in that order.
pub open spec fn not_yet(order: Seq<Role>, have: Seq<Role>) -> Seq<Role>
    decreases order.len(),
{
    if order.len() == 0 {
        Seq::empty()
    } else {
        let rest = not_yet(order.drop_last(), have);
        if have.contains(order.last()) {
            rest
        } else {
            rest.push(order.last())
        }
    }
}

/// Everything on offer where the run stands, in the order a player reads
/// them: what is wrong first, then what can be added, then what can be
/// learned.
pub open spec fn spec_offers(run: RunState, keys: Seq<Seq<char>>) -> Seq<BuyView> {
    (if run.scars@.len() > 0 {
        seq![BuyView::Repair]
    } else {
        Seq::empty()
    }) + seq![BuyView::Escort] + run.unlocked@.map_values(|r: Role| BuyView::Ship(r)) + (
    match spec_next_rung(run.flagship@, keys) {
        Some(k) => seq![BuyView::Refit(k)],
        None => Seq::empty(),
    }) + not_yet(role_order(), run.unlocked@).map_values(|r: Role| BuyView::Research(r))
}

/// The views of a list of purchases.
pub open spec fn buy_views(v: Seq<Buy>) -> Seq<BuyView> {
    v.map_values(|b: Buy| b@)
}

fn contains_role(v: &Vec<Role>, r: Role) -> (b: bool)
    ensures
        b == v@.contains(r),
{
    let mut i: usize = 0;
    while i < v.len()
        invariant
            i <= v@.len(),
            forall|j: int| 0 <= j < i ==> v@[j] != r,
        decreases v.len() - i,
    {
        if v[i] == r {
            assert(v@[i as int] == r);
            return true;
        }
        i = i + 1;
    }
    false
}

/// Everything the yard offers where the run stands.
pub fn offers(run: &RunState, fleet: &Fleet) -> (out: Vec<Buy>)
    ensures
        buy_views(out@) == spec_offers(*run, fleet_keys(*fleet)),
{
    let mut out: Vec<Buy> = Vec::new();
    if run.scars.len() > 0 {
        out.push(Buy::Repair);
    }
    out.push(Buy::Escort);
    let ghost head = buy_views(out@);
    let mut i: usize = 0;
    while i < run.unlocked.len()
        invariant
            i <= run.unlocked@.len(),
            buy_views(out@) == head + run.unlocked@.take(i as int).map_values(
                |r: Role| BuyView::Ship(r),
            ),
        decreases run.unlocked.len() - i,
    {
        let ghost before = out@;
        out.push(Buy::Ship(run.unlocked[i]));
        assert(buy_views(out@) =~= buy_views(before).push(BuyView::Ship(run.unlocked@[i as int])));
        assert(run.unlocked@.take(i + 1) =~= run.unlocked@.take(i as int).push(run.unlocked@[i as int]));
        assert(run.unlocked@.take(i + 1).map_values(|r: Role| BuyView::Ship(r)) =~= run.unlocked@.take(i as int).map_values(|r: Role| BuyView::Ship(r)).push(BuyView::Ship(run.unlocked@[i as int])));
        assert(buy_views(out@) =~= head + run.unlocked@.take(i + 1).map_values(
            |r: Role| BuyView::Ship(r),
        ));
        i = i + 1;
    }
    assert(run.unlocked@.take(run.unlocked@.len() as int) =~= run.unlocked@);
    let ghost before = out@;
    match next_rung(run.flagship.as_str(), fleet) {
        Some(k) => {
            out.push(Buy::Refit(k));
            assert(buy_views(out@) =~= buy_views(before).push(BuyView::Refit(k@)));
        },
        None => {},
    }
    let ghost mid = buy_views(out@);
    let roles = all_roles();
    let mut j: usize = 0;
    while j < roles.len()
        invariant
            roles@ == role_order(),
            j <= roles@.len(),
            buy_views(out@) == mid + not_yet(roles@.take(j as int), run.unlocked@).map_values(
                |r: Role| BuyView::Research(r),
            ),
        decreases roles.len() - j,
    {
        let r = roles[j];
        assert(roles@.take(j + 1).drop_last() =~= roles@.take(j as int));
        let ghost before = out@;
        let ghost prev = not_yet(roles@.take(j as int), run.unlocked@);
        assert(roles@.take(j + 1).last() == r);
        if !contains_role(&run.unlocked, r) {
            out.push(Buy::Research(r));
            assert(buy_views(out@) =~= buy_views(before).push(BuyView::Research(r)));
            assert(not_yet(roles@.take(j + 1), run.unlocked@) == prev.push(r));
            assert(prev.push(r).map_values(|r: Role| BuyView::Research(r)) =~= prev.map_values(|r: Role| BuyView::Research(r)).push(BuyView::Research(r)));
        } else {
            assert(not_yet(roles@.take(j + 1), run.unlocked@) == prev);
        }
        assert(buy_views(out@) =~= mid + not_yet(roles@.take(j + 1), run.unlocked@).map_values(
            |r: Role| BuyView::Research(r),
        ));
        j = j + 1;
    }
    assert(roles@.take(roles@.len() as int) =~= roles@);
    assert(buy_views(out@) =~= spec_offers(*run, fleet_keys(*fleet)));
    out
}

} // verus!
