use swarm_app::roles::Role;
use swarm_app::squadron::{collectors_wanted, replacements, Crew, COLLECTOR_REPLACE};
use swarm_app::state::{judge, HullFact, Judged, Outcome, Scene};

fn ship(flagship: bool, dead: bool, cells_lost: usize) -> HullFact {
    HullFact { dead, hive: false, flagship, cells_lost }
}

fn hive(dead: bool) -> HullFact {
    HullFact { dead, hive: true, flagship: false, cells_lost: 0 }
}

const FIGHT: Scene = Scene { sandbox: false, retreat: false, hives: 3, reinforce: 2 };

#[test]
fn every_carrier_a_wreck_is_a_win() {
    let mut o = Outcome::fresh();
    let hulls = vec![ship(true, false, 12), ship(false, false, 3), hive(true), hive(true), hive(true)];
    assert_eq!(judge(FIGHT, 500, false, &hulls, &mut o), Judged::Decided(true));
    assert!(o.won);
    assert_eq!(o.ticks, 500);
    assert_eq!(o.cells_lost, 15);
    assert_eq!((o.hives, o.hives_killed), (3, 3));
    assert_eq!(o.ships, 3);
    assert_eq!(o.decided, Some(500));
    // Decided once: the screen follows after the grace, and nothing is
    // judged again.
    assert_eq!(judge(FIGHT, 600, false, &hulls, &mut o), Judged::Wait);
    assert_eq!(judge(FIGHT, 740, false, &hulls, &mut o), Judged::Show);
    assert_eq!(o.ticks, 500);
}

#[test]
fn every_ship_a_wreck_is_a_loss() {
    let mut o = Outcome::fresh();
    let hulls = vec![ship(true, true, 400), hive(false), hive(true)];
    assert_eq!(judge(FIGHT, 90, false, &hulls, &mut o), Judged::Decided(false));
    assert_eq!(o.hives_killed, 2);
    assert_eq!(o.cells_lost, 0, "a dead hull's cells are not counted here");
}

#[test]
fn a_retreat_is_lost_with_its_flagship_and_never_won_by_killing() {
    let run = Scene { sandbox: false, retreat: true, hives: 2, reinforce: 0 };
    let mut o = Outcome::fresh();
    let hulls = vec![ship(true, false, 0), hive(true), hive(true)];
    assert_eq!(judge(run, 100, false, &hulls, &mut o), Judged::Wait);
    let hulls = vec![ship(true, true, 0), ship(false, false, 0), hive(false)];
    assert_eq!(judge(run, 100, false, &hulls, &mut o), Judged::Decided(false));
}

#[test]
fn some_scenes_are_not_judged() {
    let mut o = Outcome::fresh();
    let hulls = vec![hive(true)];
    assert_eq!(judge(FIGHT, 59, false, &hulls, &mut o), Judged::Wait, "the first second");
    assert_eq!(judge(FIGHT, 500, true, &hulls, &mut o), Judged::Wait, "a jump has judged it");
    let sandbox = Scene { sandbox: true, ..FIGHT };
    assert_eq!(judge(sandbox, 500, false, &hulls, &mut o), Judged::Wait);
    assert_eq!(o, Outcome::fresh());
}

#[test]
fn losses_are_made_good_one_at_a_time() {
    assert_eq!(replacements(0, 12, 0, 0, 150), Some((12, 150)), "the whole set first");
    assert_eq!(replacements(10, 12, 149, 150, 150), None, "not yet");
    assert_eq!(replacements(10, 12, 150, 150, 150), Some((1, 300)));
    assert_eq!(replacements(12, 12, 900, 0, 150), None, "whole");
}

#[test]
fn two_collectors_for_every_live_cutter() {
    let crews = vec![
        Crew { role: Role::Miner, dead: false },
        Crew { role: Role::Survey, dead: false },
        Crew { role: Role::Salvager, dead: true },
        Crew { role: Role::Tanker, dead: false },
    ];
    assert_eq!(collectors_wanted(&crews), 4);
    assert_eq!(replacements(0, collectors_wanted(&crews), 30, 0, COLLECTOR_REPLACE), Some((4, 120)));
}
