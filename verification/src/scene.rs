//! The scene the arguments describe, as far as its rules read it: which mode
//! it is, how many carriers and rocks it opens with, and who flies support.

use vstd::prelude::*;
use crate::roles::Role;

verus! {

/// How many motherships the swarm can fly from at once.
pub const MAX_HIVES: usize = 16;

/// How many rocks a base opens with at the least: a base with nothing to mine
/// is a build menu with an empty bank behind it.
pub const BASE_ROCKS: usize = 8;

/// What a scene opens with.
pub struct SceneSpec {
    /// A system of The Long Retreat.
    pub retreat: bool,
    /// The skirmish's base building mode.
    pub base: bool,
    /// How many motherships stand in the field.
    pub hives: usize,
    pub rocks: usize,
    /// How many carriers the tide brings in all.
    pub carriers: usize,
    /// The support ships the fleet arrives with.
    pub support: Vec<Role>,
}

impl SceneSpec {
    /// A scene of `hives` motherships and `rocks` rocks, with no tide and no
    /// support: the swarm can fly from no more motherships than it has room
    /// for.
    pub fn new(retreat: bool, base: bool, hives: usize, rocks: usize) -> (s: SceneSpec)
        ensures
            s.retreat == retreat,
            s.base == base,
            s.hives == if hives < MAX_HIVES { hives } else { MAX_HIVES },
            s.rocks == rocks,
            s.carriers == 0,
            s.support@ == Seq::<Role>::empty(),
    {
        let hives = if hives < MAX_HIVES { hives } else { MAX_HIVES };
        SceneSpec { retreat, base, hives, rocks, carriers: 0, support: Vec::new() }
    }

    /// Whether the swarm arrives on a clock rather than all at once, and
    /// therefore whether killing every carrier can be a victory. A retreat
    /// and the base are the same siege; only one of them has a way out.
    pub fn sieged(&self) -> (b: bool)
        ensures
            b == (self.retreat || self.base),
    {
        self.retreat || self.base
    }

    /// Turn the base building mode on: the carriers arrive on the tide (at
    /// least one), there are rocks to mine, and the opening pair of support
    /// ships is a miner and a tanker.
    pub fn open_base(&mut self)
        ensures
            final(self).carriers == if old(self).hives < 1 { 1 } else { old(self).hives },
            final(self).rocks == if old(self).rocks < BASE_ROCKS {
                BASE_ROCKS
            } else {
                old(self).rocks
            },
            final(self).support@ == seq![Role::Miner, Role::Tanker],
            final(self).hives == old(self).hives,
            final(self).retreat == old(self).retreat,
            final(self).base == old(self).base,
    {
        self.carriers = if self.hives < 1 { 1 } else { self.hives };
        if self.rocks < BASE_ROCKS {
            self.rocks = BASE_ROCKS;
        }
        self.support = vec![Role::Miner, Role::Tanker];
    }
}

} // verus!
