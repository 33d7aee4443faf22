use swarm_app::state::{Outcome, Tick};
use swarm_app::wreck::{go_critical, script_wreck, scuttle, wreck_remains, Fate, Reactor};

/// A ten cell hull whose reactor is the four in the middle.
fn frigate(dead_cells: &[usize]) -> Reactor {
    let mut dead = vec![false; 10];
    for &c in dead_cells {
        dead[c] = true;
    }
    Reactor {
        dead_hull: false,
        invulnerable: false,
        seed: 0x51,
        class: Some("terran_frigate".to_string()),
        cells: 10,
        core: vec![3, 4, 5, 6],
        dead,
    }
}

fn went(f: Fate) -> bool {
    matches!(f, Fate::Critical(_))
}

#[test]
fn half_the_reactor_is_what_it_takes() {
    let mut o = Outcome::fresh();
    let mut h = frigate(&[3]);
    assert!(!went(go_critical(&mut h, false, 0, 100, &mut o)));
    assert!(!h.dead_hull);
    assert_eq!(o, Outcome::fresh());
    let mut h = frigate(&[3, 6, 0, 1]);
    assert!(went(go_critical(&mut h, false, 0, 100, &mut o)));
    assert!(h.dead_hull);
    assert_eq!(o.ships_lost, 1);
    assert_eq!(o.cells_lost, 4);
    // A wreck is not asked again.
    assert!(!went(go_critical(&mut h, false, 0, 101, &mut o)));
    assert_eq!(o.ships_lost, 1);
}

#[test]
fn a_hull_shot_everywhere_but_the_reactor_keeps_flying() {
    let mut o = Outcome::fresh();
    let mut h = frigate(&[0, 1, 2, 7, 8, 9, 3]);
    assert!(!went(go_critical(&mut h, false, 0, 5, &mut o)));
}

#[test]
fn explode_forces_every_hurtable_hull_and_a_carrier_is_no_loss() {
    let mut o = Outcome::fresh();
    let mut carrier = frigate(&[]);
    assert!(!went(go_critical(&mut carrier, true, 90, 89, &mut o)));
    assert!(went(go_critical(&mut carrier, true, 90, 90, &mut o)));
    assert_eq!(o, Outcome::fresh());
    let mut armoured = frigate(&[3, 4, 5, 6]);
    armoured.invulnerable = true;
    assert!(!went(go_critical(&mut armoured, false, 90, 200, &mut o)));
    let mut empty = Reactor {
        dead_hull: false,
        invulnerable: false,
        seed: 1,
        class: None,
        cells: 3,
        core: vec![],
        dead: vec![true; 3],
    };
    assert!(!went(go_critical(&mut empty, false, 0, 200, &mut o)));
}

#[test]
fn a_scripted_wreck_takes_the_first_live_escort_once() {
    let mut escorts = vec![frigate(&[]), frigate(&[1]), frigate(&[])];
    escorts[0].dead_hull = true;
    let mut fired = false;
    assert_eq!(script_wreck(&Tick { tick: 10 }, 50, &mut fired, &mut escorts), None);
    assert_eq!(script_wreck(&Tick { tick: 50 }, 50, &mut fired, &mut escorts), Some(1));
    assert_eq!(escorts[1].dead, vec![false, true, false, true, true, true, true, false, false, false]);
    assert_eq!(escorts[2].dead, vec![false; 10]);
    assert_eq!(script_wreck(&Tick { tick: 60 }, 50, &mut fired, &mut escorts), None);
    // And the reactor rule takes it the tick after.
    let mut o = Outcome::fresh();
    assert!(went(go_critical(&mut escorts[1], false, 0, 51, &mut o)));
}

#[test]
fn scuttling_counts_each_live_pick() {
    let mut hulls = vec![frigate(&[]), frigate(&[]), frigate(&[])];
    hulls[2].dead_hull = true;
    let n = scuttle(&mut hulls, &vec![0, 2, 7, 0]);
    assert_eq!(n, 2);
    assert!(hulls[0].dead[3] && hulls[0].dead[6] && !hulls[0].dead[0]);
    assert_eq!(hulls[1].dead, vec![false; 10]);
    assert_eq!(hulls[2].dead, vec![false; 10]);
}

#[test]
fn every_piece_of_a_wreck_remembers_its_ship_and_a_carrier_leaves_none() {
    let mut o = Outcome::fresh();
    let mut h = frigate(&[3, 4]);
    match go_critical(&mut h, false, 0, 7, &mut o) {
        Fate::Critical(Some(r)) => {
            assert_eq!((r.ship, r.class.as_str(), r.whole, r.got, r.banked), (0x51, "terran_frigate", 10, 0, 0));
        }
        _ => panic!("half the reactor is gone"),
    }
    let mut carrier = frigate(&[3, 4, 5]);
    carrier.class = None;
    assert!(matches!(go_critical(&mut carrier, true, 0, 7, &mut o), Fate::Critical(None)));
    assert!(wreck_remains(&carrier).is_none());
    assert!(matches!(go_critical(&mut frigate(&[]), false, 0, 7, &mut o), Fate::Holds));
}
