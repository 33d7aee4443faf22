//! What the fleet has gathered, and the only numbers a refit screen spends.
//!
//! Volatiles and fuel are two things on purpose: what a miner cuts out of an
//! ice rock is not fuel yet, and the tanker turning one into the other over
//! time is what makes sending the miner to the ice early worth doing.

use vstd::prelude::*;

verus! {

/// What a cut, a landed cube or a price is worth: three piles.
#[derive(Clone, Copy, PartialEq, Eq, Debug, Default, Structural)]
pub struct Yield {
    pub materials: u32,
    pub volatiles: u32,
    pub data: u32,
}

impl Yield {
    /// Nothing at all.
    pub fn nothing() -> (y: Yield)
        ensures
            y.materials == 0 && y.volatiles == 0 && y.data == 0,
    {
        Yield { materials: 0, volatiles: 0, data: 0 }
    }
}

/// One cube of ore and one of data, in the cells they are made of. A price
/// is written in cubes, because a cube is what a player carries home.
pub const ORE_CUBE: u32 = 3000;

pub const DATA_CUBE: u32 = 300;

/// What one jump costs, in whole units of refined fuel.
pub const JUMP_FUEL: u32 = 60;

/// The command ship's own tank: enough for one hop, never enough for two.
pub const RESERVE: u32 = 60;

/// How long the drive spools, in ticks: thirty seconds.
pub const SPOOL_TICKS: u32 = 30 * 60;

/// How often the tanker turns one cell of ice into one unit of fuel.
pub const REFINE_TICKS: u32 = 30;

/// The bank.
///
/// Fuel is counted in whole units: it only ever moves a unit at a time as
/// the tanker refines, and a jump's whole price at once.
#[derive(Clone, Copy, PartialEq, Eq, Debug, Default, Structural)]
pub struct Bank {
    pub materials: u32,
    pub volatiles: u32,
    pub fuel: u32,
    pub data: u32,
}

/// Whether every pile of `b` covers what `cost` asks of it.
pub open spec fn covers(b: Bank, cost: Yield) -> bool {
    b.materials >= cost.materials && b.volatiles >= cost.volatiles && b.data >= cost.data
}

/// A bank with a yield landed in it.
pub open spec fn taken(b: Bank, got: Yield) -> Bank {
    Bank {
        materials: (b.materials + got.materials) as u32,
        volatiles: (b.volatiles + got.volatiles) as u32,
        data: (b.data + got.data) as u32,
        fuel: b.fuel,
    }
}

/// A bank with a price taken out of it.
pub open spec fn spent(b: Bank, cost: Yield) -> Bank {
    Bank {
        materials: (b.materials - cost.materials) as u32,
        volatiles: (b.volatiles - cost.volatiles) as u32,
        data: (b.data - cost.data) as u32,
        fuel: b.fuel,
    }
}

/// A jump's price taken from a tank, never below nought.
pub open spec fn after_jump(fuel: u32) -> u32 {
    if fuel >= JUMP_FUEL {
        (fuel - JUMP_FUEL) as u32
    } else {
        0
    }
}

impl Bank {
    /// A bank with nothing in it but the command ship's own tank.
    pub fn opening() -> (b: Bank)
        ensures
            b == (Bank { materials: 0, volatiles: 0, fuel: RESERVE, data: 0 }),
    {
        Bank { materials: 0, volatiles: 0, fuel: RESERVE, data: 0 }
    }

    /// Land what was gathered.
    pub fn take(&mut self, got: Yield)
        requires
            old(self).materials + got.materials <= u32::MAX,
            old(self).volatiles + got.volatiles <= u32::MAX,
            old(self).data + got.data <= u32::MAX,
        ensures
            *final(self) == taken(*old(self), got),
    {
        self.materials = self.materials + got.materials;
        self.volatiles = self.volatiles + got.volatiles;
        self.data = self.data + got.data;
    }

    /// Whether every pile covers what a price asks of it, all three at once,
    /// because a price is one decision.
    pub fn afford(&self, cost: Yield) -> (b: bool)
        ensures
            b == covers(*self, cost),
    {
        self.materials >= cost.materials && self.volatiles >= cost.volatiles && self.data
            >= cost.data
    }

    /// Take a price out, and say whether it was there. Nothing is taken from
    /// a bank that cannot cover the whole of it.
    pub fn spend(&mut self, cost: Yield) -> (paid: bool)
        ensures
            paid == covers(*old(self), cost),
            paid ==> *final(self) == spent(*old(self), cost),
            !paid ==> *final(self) == *old(self),
    {
        if !self.afford(cost) {
            return false;
        }
        self.materials = self.materials - cost.materials;
        self.volatiles = self.volatiles - cost.volatiles;
        self.data = self.data - cost.data;
        true
    }

    /// The tanker at work: one cell of ice into one unit of fuel, on its
    /// cadence, and only while a tanker is alive to do it. Answers whether it
    /// refined anything.
    pub fn refine(&mut self, tick: u32, tanker_alive: bool) -> (did: bool)
        requires
            old(self).fuel < u32::MAX,
        ensures
            did == (old(self).volatiles > 0 && tick % REFINE_TICKS == 0 && tanker_alive),
            did ==> *final(self) == (Bank {
                volatiles: (old(self).volatiles - 1) as u32,
                fuel: (old(self).fuel + 1) as u32,
                ..*old(self)
            }),
            !did ==> *final(self) == *old(self),
    {
        if self.volatiles == 0 || tick % REFINE_TICKS != 0 {
            return false;
        }
        if !tanker_alive {
            return false;
        }
        self.volatiles = self.volatiles - 1;
        self.fuel = self.fuel + 1;
        true
    }

    /// Whether the tank holds a jump.
    pub fn can_jump(&self) -> (b: bool)
        ensures
            b == (self.fuel >= JUMP_FUEL),
    {
        self.fuel >= JUMP_FUEL
    }

    /// Pay for a jump out of the tank. Never below nought: a scripted jump
    /// is not paid for, and a negative tank would be a debt nothing settles.
    pub fn burn_jump(&mut self)
        ensures
            *final(self) == (Bank { fuel: after_jump(old(self).fuel), ..*old(self) }),
    {
        self.fuel = self.fuel.saturating_sub(JUMP_FUEL);
    }
}

} // verus!
