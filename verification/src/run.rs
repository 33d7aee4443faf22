//! A run: where you are on the map, what you are carrying, and which ships
//! are still with you. Everything in here survives a system.

use vstd::prelude::*;
use crate::bank::{Bank, JUMP_FUEL, SPOOL_TICKS};
use crate::roles::Role;
use crate::production::SKIRMISH_BANK;
use crate::tide::TideState;
use crate::state::{AppState, NextState, Outcome};

verus! {

/// One system of the map, and the systems a jump from it can reach.
#[derive(Clone, Debug)]
pub struct MapNode {
    /// Which act it belongs to, from nought.
    pub act: u8,
    /// What its field is laid out from.
    pub seed: u64,
    /// The nodes a jump from here can reach. Empty on the last node, the way out.
    pub next: Vec<u16>,
}

/// The map of a run: its nodes, by number.
#[derive(Clone, Debug)]
pub struct RunMap {
    pub nodes: Vec<MapNode>,
}

impl RunMap {
    /// Every branch leads to a node that is on the map.
    pub open spec fn wf(&self) -> bool {
        forall|n: int, k: int|
            0 <= n < self.nodes@.len() && 0 <= k < self.nodes@[n].next@.len() ==> (
            #[trigger] self.nodes@[n].next@[k]) < self.nodes@.len()
    }

    pub fn node(&self, at: u16) -> (n: &MapNode)
        requires
            at < self.nodes@.len(),
        ensures
            *n == self.nodes@[at as int],
    {
        &self.nodes[at as usize]
    }
}

/// A dead ship of the fleet's, as the run remembers it.
#[derive(Clone, Debug, PartialEq)]
pub struct Hulk {
    /// The ship it came off, which is that ship's own seed.
    pub ship: u32,
    pub class: String,
    /// Cells the whole ship had, before any of this.
    pub whole: u32,
    /// Cells a salvager has recovered off it.
    pub got: u32,
}

/// Where a run stands.
#[derive(Clone, Debug)]
pub struct RunState {
    pub seed: u64,
    pub map: RunMap,
    /// Which node the fleet is in.
    pub at: u16,
    /// What the last jump banked, which is what the next system starts with.
    pub bank: Bank,
    /// The support ships that made it through the field.
    pub fleet: Vec<Role>,
    /// How many systems have been left behind.
    pub systems: u32,
    pub flagship: String,
    /// How many escorts are flying with the flagship.
    pub escorts: u32,
    /// The dead cells the flagship carries from one system into the next.
    pub scars: Vec<u32>,
    /// The roles the yard knows how to build.
    pub unlocked: Vec<Role>,
    /// The fleet's dead, as far as they have been recovered.
    pub hulks: Vec<Hulk>,
}

/// The roles a run opens with, and the ones its yard can build from the
/// start: one of each of the two ships that make the loop work at all.
pub open spec fn opening_fleet() -> Seq<Role> {
    seq![Role::Miner, Role::Tanker]
}

impl RunState {
    /// The map is whole and the fleet stands on it.
    pub open spec fn wf(&self) -> bool {
        self.map.wf() && self.at < self.map.nodes@.len()
    }

    /// The branches out of the node the fleet stands on.
    pub open spec fn branches(&self) -> Seq<u16> {
        self.map.nodes@[self.at as int].next@
    }

    /// A run at the start of a map: the first node, the command ship's own
    /// tank, a miner and a tanker, one escort, and nothing else.
    pub fn new(seed: u64, flagship: &str, map: RunMap) -> (run: RunState)
        requires
            map.wf(),
            map.nodes@.len() > 0,
        ensures
            run.wf(),
            run.seed == seed,
            run.map == map,
            run.at == 0,
            run.bank == Bank::opening_spec(),
            run.fleet@ == opening_fleet(),
            run.unlocked@ == opening_fleet(),
            run.systems == 0,
            run.flagship@ == flagship@,
            run.escorts == 1,
            run.scars@.len() == 0,
            run.hulks@.len() == 0,
    {
        let fleet = vec![Role::Miner, Role::Tanker];
        let unlocked = vec![Role::Miner, Role::Tanker];
        assert(fleet@ =~= opening_fleet());
        assert(unlocked@ =~= opening_fleet());
        RunState {
            seed,
            map,
            at: 0,
            bank: Bank::opening(),
            fleet,
            systems: 0,
            flagship: crate::text::string_of(&crate::text::chars_of(flagship)),
            escorts: 1,
            scars: Vec::new(),
            unlocked,
            hulks: Vec::new(),
        }
    }

    pub fn node(&self) -> (n: &MapNode)
        requires
            self.wf(),
        ensures
            *n == self.map.nodes@[self.at as int],
    {
        self.map.node(self.at)
    }

    /// The way out is the last node of the map, so a run standing on it has
    /// nowhere left to jump to and is over.
    pub fn done(&self) -> (b: bool)
        requires
            self.wf(),
        ensures
            b == (self.branches().len() == 0),
    {
        self.node().next.len() == 0
    }

    /// Move on after a jump, along the first branch.
    pub fn advance(&mut self)
        requires
            old(self).wf(),
        ensures
            final(self).wf(),
            final(self).at == (if old(self).branches().len() > 0 {
                old(self).branches()[0]
            } else {
                old(self).at
            }),
            *final(self) == (RunState { at: final(self).at, ..*old(self) }),
    {
        if self.node().next.len() > 0 {
            let to = self.node().next[0];
            assert(self.map.nodes@[self.at as int].next@[0] < self.map.nodes@.len());
            self.at = to;
        }
    }

    /// Move along a branch of the node the fleet is standing on, and only
    /// along one: anywhere else leaves it where it is.
    pub fn go(&mut self, to: u16)
        requires
            old(self).wf(),
        ensures
            final(self).wf(),
            final(self).at == (if old(self).branches().contains(to) {
                to
            } else {
                old(self).at
            }),
            *final(self) == (RunState { at: final(self).at, ..*old(self) }),
    {
        let there = contains_u16(&self.node().next, to);
        if there {
            let ghost k = choose|k: int| 0 <= k < old(self).branches().len() && old(self).branches()[k] == to;
            assert(self.map.nodes@[self.at as int].next@[k] < self.map.nodes@.len());
            self.at = to;
        }
    }

    /// What a jump leaves the run with: the support ships that were inside
    /// the field, the bank as it stood, one more system behind it, and the
    /// next node along. Answers whether that jump was out of the last
    /// system, which is the run won rather than a leg of it finished.
    pub fn land_jump(&mut self, went: &Vec<Option<Role>>, bank: Bank) -> (escaped: bool)
        requires
            old(self).wf(),
            old(self).systems < u32::MAX,
        ensures
            final(self).wf(),
            escaped == (old(self).branches().len() == 0),
            final(self).fleet@ == survivors(went@),
            final(self).bank == bank,
            final(self).systems == old(self).systems + 1,
            final(self).at == (if old(self).branches().len() > 0 {
                old(self).branches()[0]
            } else {
                old(self).at
            }),
            *final(self) == (RunState {
                fleet: final(self).fleet,
                bank,
                systems: final(self).systems,
                at: final(self).at,
                ..*old(self)
            }),
    {
        let mut fleet: Vec<Role> = Vec::new();
        let mut i: usize = 0;
        while i < went.len()
            invariant
                i <= went@.len(),
                fleet@ == survivors(went@.take(i as int)),
            decreases went.len() - i,
        {
            assert(went@.take(i + 1).drop_last() =~= went@.take(i as int));
            if let Some(r) = went[i] {
                fleet.push(r);
            }
            i = i + 1;
        }
        assert(went@.take(went@.len() as int) =~= went@);
        self.fleet = fleet;
        self.bank = bank;
        self.systems = self.systems + 1;
        let escaped = self.done();
        self.advance();
        escaped
    }
}

/// What a jump came to, for the screen after it.
#[derive(Clone, Copy, PartialEq, Eq, Debug, Structural)]
pub struct JumpReport {
    /// Ships that were outside the field when it went.
    pub left: u32,
    /// The jump was out of the last system: the run is won.
    pub escaped: bool,
}

/// The jump itself, once the spool has completed: what is inside the field
/// goes (`went`, each ship's role, or nothing for a ship that is not a
/// support ship), what is outside stays (`left` of them), the tank pays,
/// and the run moves on to the next system carrying the bank. The scene is
/// won by leaving it: the outcome says so, with the tick it went at, how
/// many were left behind and whether this was the way out of the last
/// system, and the app moves on to the screen that reports it.
pub fn jump_out(
    drive: &mut JumpDrive,
    bank: &mut Bank,
    run: &mut RunState,
    outcome: &mut Outcome,
    next: &mut NextState,
    tick: u32,
    went: &Vec<Option<Role>>,
    left: u32,
) -> (r: Option<JumpReport>)
    requires
        old(run).wf(),
        old(run).systems < u32::MAX,
    ensures
        !old(drive).ready_spec(tick) ==> r is None && *final(drive) == *old(drive) && *final(bank)
            == *old(bank) && *final(run) == *old(run) && *final(outcome) == *old(outcome)
            && final(next).0 == old(next).0,
        old(drive).ready_spec(tick) ==> {
            &&& r == Some(JumpReport { left, escaped: old(run).branches().len() == 0 })
            &&& *final(drive) == (JumpDrive { ready_at: None, left, jumped: true })
            &&& *final(bank) == (Bank { fuel: crate::bank::after_jump(old(bank).fuel), ..*old(bank) })
            &&& final(run).wf()
            &&& final(run).fleet@ == survivors(went@)
            &&& final(run).bank == *final(bank)
            &&& final(run).systems == old(run).systems + 1
            &&& final(run).at == (if old(run).branches().len() > 0 {
                old(run).branches()[0]
            } else {
                old(run).at
            })
            &&& *final(run) == (RunState {
                fleet: final(run).fleet,
                bank: *final(bank),
                systems: final(run).systems,
                at: final(run).at,
                ..*old(run)
            })
            &&& *final(outcome) == (Outcome {
                won: true,
                jumped: true,
                ticks: tick,
                left,
                escaped: old(run).branches().len() == 0,
                ..*old(outcome)
            })
            &&& final(next).0 == Some(AppState::Result)
        },
{
    if !drive.ready(tick) {
        return None;
    }
    bank.burn_jump();
    drive.went(left);
    let escaped = run.land_jump(went, *bank);
    outcome.won = true;
    outcome.jumped = true;
    outcome.ticks = tick;
    outcome.left = left;
    outcome.escaped = escaped;
    next.0 = Some(AppState::Result);
    Some(JumpReport { left, escaped })
}

/// Whether `v` holds `x`.
pub fn contains_u16(v: &Vec<u16>, x: u16) -> (b: bool)
    ensures
        b == v@.contains(x),
{
    let mut i: usize = 0;
    while i < v.len()
        invariant
            i <= v@.len(),
            forall|j: int| 0 <= j < i ==> v@[j] != x,
        decreases v.len() - i,
    {
        if v[i] == x {
            assert(v@[i as int] == x);
            return true;
        }
        i = i + 1;
    }
    false
}

/// The roles of the ships that went, in the order they went.
pub open spec fn survivors(went: Seq<Option<Role>>) -> Seq<Role>
    decreases went.len(),
{
    if went.len() == 0 {
        Seq::empty()
    } else {
        let rest = survivors(went.drop_last());
        match went.last() {
            Some(r) => rest.push(r),
            None => rest,
        }
    }
}

impl Bank {
    pub open spec fn opening_spec() -> Bank {
        Bank { materials: 0, volatiles: 0, fuel: crate::bank::RESERVE, data: 0 }
    }
}

/// What a run carries into the system it is entering, and what it does not.
///
/// The bank carries between systems, because that is what a run is; the
/// drive and the tide do not, because each system has its own. A skirmish
/// has no run to carry, and its yard opens on a fixed budget.
pub fn reset_retreat(
    retreat: bool,
    run: &RunState,
    bank: &mut Bank,
    drive: &mut JumpDrive,
    tide: &mut TideState,
)
    ensures
        !retreat ==> *final(bank) == (Bank { materials: SKIRMISH_BANK, volatiles: 0, fuel: 0, data: 0 })
            && *final(drive) == *old(drive) && *final(tide) == *old(tide),
        retreat ==> *final(bank) == run.bank && *final(drive) == (JumpDrive {
            ready_at: None,
            left: 0,
            jumped: false,
        }) && final(tide).spawned == 0,
{
    if !retreat {
        *bank = Bank { materials: SKIRMISH_BANK, volatiles: 0, fuel: 0, data: 0 };
        return;
    }
    *bank = run.bank;
    *drive = JumpDrive { ready_at: None, left: 0, jumped: false };
    *tide = TideState::fresh();
}

/// The drive that takes the fleet out.
#[derive(Clone, Copy, Debug, Default, PartialEq, Eq, Structural)]
pub struct JumpDrive {
    /// The tick the spool completes, once it has started.
    pub ready_at: Option<u32>,
    /// Ships left behind by the last jump.
    pub left: u32,
    pub jumped: bool,
}

/// What asking for a jump came to.
#[derive(Clone, Copy, Debug, PartialEq, Eq, Structural)]
pub enum Spool {
    /// Nothing to do: not a retreat, already spooling or jumped, or not
    /// asked this frame.
    Ignored,
    /// Asked, and the tank does not hold a jump.
    NotEnoughFuel,
    /// The drive is spooling, and is ready at this tick.
    Spooling(u32),
}

impl JumpDrive {
    pub open spec fn ready_spec(&self, tick: u32) -> bool {
        match self.ready_at {
            Some(at) => tick >= at,
            None => false,
        }
    }

    pub fn spooling(&self) -> (b: bool)
        ensures
            b == self.ready_at is Some,
    {
        self.ready_at.is_some()
    }

    /// The J key, or the button that says the same thing.
    pub fn ask(&mut self, retreat: bool, asked: bool, bank: &Bank, tick: u32) -> (s: Spool)
        requires
            tick + SPOOL_TICKS <= u32::MAX,
        ensures
            (!retreat || old(self).ready_at is Some || old(self).jumped || !asked) ==> s
                == Spool::Ignored && *final(self) == *old(self),
            (retreat && old(self).ready_at is None && !old(self).jumped && asked && bank.fuel
                < JUMP_FUEL) ==> s == Spool::NotEnoughFuel && *final(self) == *old(self),
            (retreat && old(self).ready_at is None && !old(self).jumped && asked && bank.fuel
                >= JUMP_FUEL) ==> s == Spool::Spooling((tick + SPOOL_TICKS) as u32) && *final(
                self) == (JumpDrive { ready_at: Some((tick + SPOOL_TICKS) as u32), ..*old(self) }),
    {
        if !retreat || self.spooling() || self.jumped {
            return Spool::Ignored;
        }
        if !asked {
            return Spool::Ignored;
        }
        if !bank.can_jump() {
            return Spool::NotEnoughFuel;
        }
        let at = tick + SPOOL_TICKS;
        self.ready_at = Some(at);
        Spool::Spooling(at)
    }

    /// Whether the spool has completed by this tick.
    pub fn ready(&self, tick: u32) -> (b: bool)
        ensures
            b == self.ready_spec(tick),
    {
        match self.ready_at {
            Some(at) => tick >= at,
            None => false,
        }
    }

    /// `--jump TICK`: the drive is ready at that tick, paid for or not,
    /// written once on the scene's first tick.
    pub fn script(&mut self, tick: u32, at: Option<u32>)
        ensures
            *final(self) == (if tick == 0 && at is Some {
                JumpDrive { ready_at: at, ..*old(self) }
            } else {
                *old(self)
            }),
    {
        if let Some(a) = at {
            if tick == 0 {
                self.ready_at = Some(a);
            }
        }
    }

    /// The jump has gone: the spool is spent and how many were left behind
    /// is kept for the screen that says so.
    pub fn went(&mut self, left: u32)
        ensures
            *final(self) == (JumpDrive { ready_at: None, left, jumped: true }),
    {
        self.ready_at = None;
        self.jumped = true;
        self.left = left;
    }
}

} // verus!
