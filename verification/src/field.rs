//! What a scene is made of, as the rules that build and clear it read it: the
//! backdrop that outlives every scene, the field torn down on the way out, the
//! yard a flagship carries, the pieces a hull is drawn in, and the selection
//! shell round it.
//!
//! The world itself belongs to the engine. Each rule here takes the few facts
//! it reads off an entity as plain values and says what is to be done; the
//! app does it.

use vstd::prelude::*;

verus! {

/// One entity, as the teardown rule sees it.
#[derive(Clone, Copy, PartialEq, Eq, Debug, Structural)]
pub struct Ent {
    pub id: u64,
    /// It stands somewhere in the world (it has a transform).
    pub placed: bool,
    /// It was there before any scene, and is kept across all of them.
    pub keep: bool,
    /// It is a node of the interface rather than a thing in space.
    pub node: bool,
    /// It hangs off a parent, and leaves when the parent does.
    pub child: bool,
}

/// Tagged as kept: everything that stands in the world when the backdrop is
/// done.
pub open spec fn kept(e: Ent) -> Ent {
    Ent { keep: e.keep || e.placed, ..e }
}

/// What a teardown takes: every top level entity in the world that is neither
/// kept nor a node of the interface. Children go with their parents.
pub open spec fn doomed(e: Ent) -> bool {
    e.placed && !e.keep && !e.node && !e.child
}

/// The ids a teardown despawns, in the world's order.
pub open spec fn doomed_ids(w: Seq<Ent>) -> Seq<u64>
    decreases w.len(),
{
    if w.len() == 0 {
        Seq::empty()
    } else if doomed(w.last()) {
        doomed_ids(w.drop_last()).push(w.last().id)
    } else {
        doomed_ids(w.drop_last())
    }
}

/// Runs after the backdrop has been spawned and before any field has: tags
/// everything that stands in the world as kept.
pub fn mark_keep(world: &mut Vec<Ent>)
    ensures
        final(world)@ == old(world)@.map_values(|e: Ent| kept(e)),
{
    let n = world.len();
    let mut i: usize = 0;
    while i < n
        invariant
            n == old(world)@.len(),
            world@.len() == n,
            i <= n,
            forall|j: int| 0 <= j < i ==> world@[j] == kept(old(world)@[j]),
            forall|j: int| i <= j < n ==> world@[j] == old(world)@[j],
        decreases n - i,
    {
        let e = world[i];
        if e.placed && !e.keep {
            world.set(i, Ent { keep: true, ..e });
        }
        i = i + 1;
    }
    assert(world@ =~= old(world)@.map_values(|e: Ent| kept(e)));
}

/// Take the field down: the ids of every top level entity that is not kept
/// and is not a node of the interface.
pub fn teardown_field(world: &Vec<Ent>) -> (gone: Vec<u64>)
    ensures
        gone@ == doomed_ids(world@),
{
    let mut gone: Vec<u64> = Vec::new();
    let mut i: usize = 0;
    while i < world.len()
        invariant
            i <= world@.len(),
            gone@ == doomed_ids(world@.subrange(0, i as int)),
        decreases world@.len() - i,
    {
        let e = world[i];
        proof {
            assert(world@.subrange(0, i + 1).drop_last() =~= world@.subrange(0, i as int));
        }
        if e.placed && !e.keep && !e.node && !e.child {
            gone.push(e.id);
        }
        i = i + 1;
    }
    assert(world@.subrange(0, world@.len() as int) =~= world@);
    gone
}

/// An id is among those a teardown takes exactly when some entity of the
/// world with that id is doomed.
pub proof fn lemma_doomed_ids_are_the_doomed(w: Seq<Ent>, x: u64)
    ensures
        doomed_ids(w).contains(x) <==> exists|i: int|
            0 <= i < w.len() && #[trigger] w[i].id == x && doomed(w[i]),
    decreases w.len(),
{
    if w.len() > 0 {
        let init = w.drop_last();
        lemma_doomed_ids_are_the_doomed(init, x);
        if doomed_ids(w).contains(x) {
            if doomed(w.last()) && w.last().id == x {
                assert(w[w.len() - 1].id == x);
            } else {
                if doomed(w.last()) {
                    let k = choose|k: int| 0 <= k < doomed_ids(w).len() && doomed_ids(w)[k] == x;
                    assert(doomed_ids(init)[k] == x);
                }
                let i = choose|i: int| 0 <= i < init.len() && #[trigger] init[i].id == x && doomed(init[i]);
                assert(w[i] == init[i]);
            }
        }
        if exists|i: int| 0 <= i < w.len() && #[trigger] w[i].id == x && doomed(w[i]) {
            let i = choose|i: int| 0 <= i < w.len() && #[trigger] w[i].id == x && doomed(w[i]);
            if i < init.len() {
                assert(init[i] == w[i]);
                let k = choose|k: int| 0 <= k < doomed_ids(init).len() && doomed_ids(init)[k] == x;
                if doomed(w.last()) {
                    assert(doomed_ids(w)[k] == x);
                }
            } else {
                assert(doomed_ids(w) == doomed_ids(init).push(x));
                assert(doomed_ids(w)[doomed_ids(init).len() as int] == x);
            }
        }
    }
}

/// The ids a teardown takes from two worlds laid end to end are those it takes
/// from each.
pub proof fn lemma_doomed_ids_append(a: Seq<Ent>, b: Seq<Ent>)
    ensures
        doomed_ids(a + b) == doomed_ids(a) + doomed_ids(b),
    decreases b.len(),
{
    if b.len() == 0 {
        assert(a + b =~= a);
        assert(doomed_ids(a) + doomed_ids(b) =~= doomed_ids(a));
    } else {
        assert((a + b).drop_last() =~= a + b.drop_last());
        assert((a + b).last() == b.last());
        lemma_doomed_ids_append(a, b.drop_last());
        if doomed(b.last()) {
            assert(doomed_ids(a) + doomed_ids(b.drop_last()).push(b.last().id) =~= (doomed_ids(
                a,
            ) + doomed_ids(b.drop_last())).push(b.last().id));
        }
    }
}

/// Nothing a teardown takes was tagged as kept.
pub proof fn lemma_kept_world_is_spared(w: Seq<Ent>)
    ensures
        doomed_ids(w.map_values(|e: Ent| kept(e))) == Seq::<u64>::empty(),
    decreases w.len(),
{
    let m = w.map_values(|e: Ent| kept(e));
    if w.len() == 0 {
        assert(m.len() == 0);
    } else {
        assert(m.drop_last() =~= w.drop_last().map_values(|e: Ent| kept(e)));
        lemma_kept_world_is_spared(w.drop_last());
        assert(!doomed(m.last()));
    }
}

/// A ship, as the yard rule sees it.
#[derive(Clone, Copy, PartialEq, Eq, Debug, Structural)]
pub struct Ship {
    pub id: u64,
    pub flagship: bool,
    /// It carries a yard already.
    pub yard: bool,
}

/// A ship once the yards are open: every flagship has one.
pub open spec fn with_yard(s: Ship) -> Ship {
    Ship { yard: s.yard || s.flagship, ..s }
}

/// The flagship carries the yard: any flagship without one is handed a fresh
/// one, and a ship that has one keeps it. A field torn down and built again
/// opens a fresh yard with no rule about it anywhere else.
pub fn open_yards(ships: &mut Vec<Ship>)
    ensures
        final(ships)@ == old(ships)@.map_values(|s: Ship| with_yard(s)),
{
    let n = ships.len();
    let mut i: usize = 0;
    while i < n
        invariant
            n == old(ships)@.len(),
            ships@.len() == n,
            i <= n,
            forall|j: int| 0 <= j < i ==> ships@[j] == with_yard(old(ships)@[j]),
            forall|j: int| i <= j < n ==> ships@[j] == old(ships)@[j],
        decreases n - i,
    {
        let s = ships[i];
        if s.flagship && !s.yard {
            ships.set(i, Ship { yard: true, ..s });
        }
        i = i + 1;
    }
    assert(ships@ =~= old(ships)@.map_values(|s: Ship| with_yard(s)));
}

/// One drawn piece of a hull: the entity it is drawn by and the mesh it
/// draws, once it has been spawned.
#[derive(Clone, Copy, PartialEq, Eq, Debug, Structural)]
pub struct Piece {
    pub entity: Option<u64>,
    pub mesh: Option<u64>,
}

/// What putting a mesh on a piece comes to.
#[derive(Clone, Copy, PartialEq, Eq, Debug, Structural)]
pub enum Upsert {
    /// Nothing to draw and nothing spawned: leave it.
    Nothing,
    /// Nothing to draw: hide the entity that is there.
    Hide(u64),
    /// Swap the new mesh in under this handle and show the entity.
    Swap { entity: u64, mesh: u64 },
    /// Spawn the piece, under its parent, with the new mesh.
    Spawn,
}

pub open spec fn spec_upsert(piece: Piece, empty: bool) -> Upsert {
    if empty {
        match piece.entity {
            Some(e) => Upsert::Hide(e),
            None => Upsert::Nothing,
        }
    } else {
        match (piece.entity, piece.mesh) {
            (Some(e), Some(h)) => Upsert::Swap { entity: e, mesh: h },
            _ => Upsert::Spawn,
        }
    }
}

/// Put a mesh on a piece: spawn it the first time, swap the mesh after, hide
/// it when there is nothing to draw.
pub fn upsert(piece: &Piece, empty: bool) -> (u: Upsert)
    ensures
        u == spec_upsert(*piece, empty),
{
    if empty {
        match piece.entity {
            Some(e) => Upsert::Hide(e),
            None => Upsert::Nothing,
        }
    } else {
        match (piece.entity, piece.mesh) {
            (Some(e), Some(h)) => Upsert::Swap { entity: e, mesh: h },
            _ => Upsert::Spawn,
        }
    }
}

impl Piece {
    /// Record the entity and mesh a spawn made, so the next mesh is swapped in
    /// rather than spawned again.
    pub fn spawned(&mut self, entity: u64, mesh: u64)
        ensures
            final(self).entity == Some(entity),
            final(self).mesh == Some(mesh),
    {
        self.entity = Some(entity);
        self.mesh = Some(mesh);
    }
}

/// A selection shell drawn round a hull: the hull it hangs off, and whether
/// it is shown.
#[derive(Clone, Copy, PartialEq, Eq, Debug, Structural)]
pub struct Shell {
    pub parent: Option<u64>,
    pub shown: bool,
}

/// A shell is shown exactly when the hull it hangs off is picked.
pub open spec fn lit_shell(s: Shell, picked: Seq<u64>) -> Shell {
    Shell { shown: s.parent matches Some(p) && picked.contains(p), ..s }
}

fn holds(v: &Vec<u64>, x: u64) -> (b: bool)
    ensures
        b == v@.contains(x),
{
    let mut i: usize = 0;
    while i < v.len()
        invariant
            i <= v@.len(),
            forall|j: int| 0 <= j < i ==> v@[j] != x,
        decreases v@.len() - i,
    {
        if v[i] == x {
            assert(v@[i as int] == x);
            return true;
        }
        i = i + 1;
    }
    false
}

/// Show the shell on what is picked and hide it on what is not. The rule is
/// read off the hull each time rather than remembered on the shell, so the
/// shell is never a second writer for one fact.
pub fn light_outline(shells: &mut Vec<Shell>, picked: &Vec<u64>)
    ensures
        final(shells)@ == old(shells)@.map_values(|s: Shell| lit_shell(s, picked@)),
{
    let n = shells.len();
    let mut i: usize = 0;
    while i < n
        invariant
            n == old(shells)@.len(),
            shells@.len() == n,
            i <= n,
            forall|k: int| 0 <= k < i ==> #[trigger] shells@[k] == lit_shell(old(shells)@[k], picked@),
            forall|k: int| i <= k < n ==> #[trigger] shells@[k] == old(shells)@[k],
        decreases n - i,
    {
        let s = shells[i];
        let on = match s.parent {
            Some(p) => holds(picked, p),
            None => false,
        };
        shells.set(i, Shell { shown: on, ..s });
        i = i + 1;
    }
    assert(shells@ =~= old(shells)@.map_values(|s: Shell| lit_shell(s, picked@)));
}

} // verus!
