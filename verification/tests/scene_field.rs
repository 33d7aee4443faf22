use swarm_app::field::{
    light_outline, mark_keep, open_yards, teardown_field, upsert, Ent, Piece, Shell, Ship, Upsert,
};
use swarm_app::pacing::FrameLimit;
use swarm_app::sparks::{ring_writes, RingWrite, SparkQueue, CPU_SPARKS};
use swarm_app::state::{boot, AppState, Initial, NextState};
use swarm_app::scene::{SceneSpec, BASE_ROCKS, MAX_HIVES};
use swarm_app::roles::Role;

fn ent(id: u64, placed: bool, node: bool, child: bool) -> Ent {
    Ent { id, placed, keep: false, node, child }
}

#[test]
fn a_teardown_takes_the_field_and_spares_the_backdrop() {
    // The camera and the sky, then an interface node with no place in space.
    let mut world = vec![ent(1, true, false, false), ent(2, true, false, false), ent(3, false, true, false)];
    mark_keep(&mut world);
    assert!(world[0].keep && world[1].keep);
    assert!(!world[2].keep);
    // A scene: a hull, its turret, a rock and a panel.
    world.push(ent(10, true, false, false));
    world.push(ent(11, true, false, true));
    world.push(ent(12, true, false, false));
    world.push(ent(13, true, true, false));
    assert_eq!(teardown_field(&world), vec![10, 12]);
}

#[test]
fn a_teardown_of_an_untagged_world_takes_every_top_level_thing() {
    let world = vec![ent(5, true, false, false), ent(6, false, false, false), ent(7, true, false, false)];
    assert_eq!(teardown_field(&world), vec![5, 7]);
    assert_eq!(teardown_field(&Vec::new()), Vec::<u64>::new());
}

#[test]
fn every_flagship_gets_a_yard_and_keeps_the_one_it_has() {
    let mut ships = vec![
        Ship { id: 1, flagship: true, yard: false },
        Ship { id: 2, flagship: false, yard: false },
        Ship { id: 3, flagship: true, yard: true },
    ];
    open_yards(&mut ships);
    assert!(ships[0].yard);
    assert!(!ships[1].yard);
    assert!(ships[2].yard);
    assert_eq!(ships[0].id, 1);
}

#[test]
fn a_piece_is_spawned_then_swapped_then_hidden() {
    let mut p = Piece { entity: None, mesh: None };
    assert_eq!(upsert(&p, true), Upsert::Nothing);
    assert_eq!(upsert(&p, false), Upsert::Spawn);
    p.spawned(40, 41);
    assert_eq!(upsert(&p, false), Upsert::Swap { entity: 40, mesh: 41 });
    assert_eq!(upsert(&p, true), Upsert::Hide(40));
    let half = Piece { entity: Some(9), mesh: None };
    assert_eq!(upsert(&half, false), Upsert::Spawn);
}

#[test]
fn the_frame_cap_keeps_its_own_slots() {
    let mut f = FrameLimit::new(120, 1_000);
    assert_eq!(f.budget, 8_333_333);
    assert_eq!(f.next, 1_000);
    // A frame that ended early sleeps until its slot.
    assert_eq!(f.pace(500), 500);
    assert_eq!(f.next, 1_000 + 8_333_333);
    // One that overran does not sleep, and the next slot counts from now.
    assert_eq!(f.pace(20_000_000), 0);
    assert_eq!(f.next, 20_000_000 + 8_333_333);
    assert_eq!(FrameLimit::new(60, 0).budget, 16_666_667);
    assert_eq!(FrameLimit::new(1, 0).budget, 1_000_000_000);
}

#[test]
fn boot_moves_on_to_the_screen_asked_for() {
    let mut next = NextState(None);
    boot(&Initial(AppState::Chart), &mut next);
    assert_eq!(next.0, Some(AppState::Chart));
}

#[test]
fn a_base_is_a_siege_with_rocks_and_a_miner_and_a_tanker() {
    let mut s = SceneSpec::new(false, true, 0, 3);
    assert!(s.sieged());
    s.open_base();
    assert_eq!(s.carriers, 1);
    assert_eq!(s.rocks, BASE_ROCKS);
    assert_eq!(s.support, vec![Role::Miner, Role::Tanker]);
    let mut t = SceneSpec::new(false, true, 40, 20);
    assert_eq!(t.hives, MAX_HIVES);
    t.open_base();
    assert_eq!(t.carriers, MAX_HIVES);
    assert_eq!(t.rocks, 20);
    assert!(!SceneSpec::new(false, false, 3, 3).sieged());
    assert!(SceneSpec::new(true, false, 3, 3).sieged());
}

#[test]
fn a_frame_budget_on_an_exact_half_rounds_as_the_double_does() {
    assert_eq!(FrameLimit::new(1024, 0).budget, 976_562);
    assert_eq!(FrameLimit::new(5120, 0).budget, 195_313);
    assert_eq!(FrameLimit::new(16_000_000, 0).budget, 62);
    assert_eq!(FrameLimit::new(80_000_000, 0).budget, 12);
    assert_eq!(FrameLimit::new(2_000_000_000, 0).budget, 1);
    assert_eq!(FrameLimit::new(3, 0).budget, 333_333_333);
}

#[test]
fn a_frame_queues_sparks_up_to_its_cap_and_drops_the_rest() {
    let mut q = SparkQueue(vec![0u32; CPU_SPARKS - 2]);
    q.extend(vec![1, 2, 3, 4]);
    assert_eq!(q.0.len(), CPU_SPARKS);
    assert_eq!(&q.0[CPU_SPARKS - 2..], &[1, 2]);
    q.push(9);
    assert_eq!(q.0.len(), CPU_SPARKS);
    let mut small = SparkQueue(Vec::new());
    small.push(5u32);
    small.extend(vec![6, 7]);
    assert_eq!(small.0, vec![5, 6, 7]);
}

#[test]
fn a_frame_of_sparks_wraps_the_ring_in_two_writes() {
    let w = ring_writes(CPU_SPARKS - 3, 10);
    assert_eq!(w, RingWrite { head: 3, rest: 7, next: 7 });
    assert_eq!(ring_writes(5, 10), RingWrite { head: 10, rest: 0, next: 15 });
    assert_eq!(ring_writes(0, CPU_SPARKS), RingWrite { head: CPU_SPARKS, rest: 0, next: 0 });
    assert_eq!(ring_writes(9, 0), RingWrite { head: 0, rest: 0, next: 9 });
}

#[test]
fn a_shell_is_shown_exactly_on_what_is_picked() {
    let mut shells = vec![
        Shell { parent: Some(1), shown: false },
        Shell { parent: Some(2), shown: true },
        Shell { parent: None, shown: true },
    ];
    light_outline(&mut shells, &vec![1, 5]);
    let shown: Vec<bool> = shells.iter().map(|s| s.shown).collect();
    assert_eq!(shown, vec![true, false, false]);
    assert_eq!(shells[1].parent, Some(2));
}
