use swarm_app::roles::Role;
use swarm_app::work::{assign_work, Assigned, Body, Cutter, Job};

fn crew(role: Role) -> Cutter {
    Cutter { role, job: Job::Idle, escort: true }
}

#[test]
fn a_rock_takes_the_miners_and_a_wreck_the_salvagers() {
    let mut crews = vec![crew(Role::Miner), crew(Role::Salvager), crew(Role::Survey), crew(Role::Tanker)];
    let rock = Body { id: 70, rock: true, seam: 12 };
    let a = assign_work(true, true, Some(rock), &mut crews);
    assert_eq!(a, Assigned::ToWork(2));
    assert_eq!(a.text().as_deref(), Some("2 ships to work"));
    assert_eq!(crews[0], Cutter { role: Role::Miner, job: Job::Work(70), escort: false });
    assert_eq!(crews[1], crew(Role::Salvager));
    assert_eq!(crews[2].job, Job::Work(70));
    assert_eq!(crews[3], crew(Role::Tanker));

    let wreck = Body { id: 71, rock: false, seam: 0 };
    let a = assign_work(true, true, Some(wreck), &mut crews);
    assert_eq!(a, Assigned::ToWork(2));
    assert_eq!(crews[0].job, Job::Work(70), "a miner does not cut a wreck");
    assert_eq!(crews[1].job, Job::Work(71));
    assert_eq!(crews[2].job, Job::Work(71));
    let mut one = vec![crew(Role::Salvager)];
    assert_eq!(assign_work(true, true, Some(wreck), &mut one).text().as_deref(), Some("1 ship to work"));
}

#[test]
fn a_mined_out_rock_is_refused_and_a_useless_press_is_left_alone() {
    let mut crews = vec![crew(Role::Miner)];
    let stone = Body { id: 3, rock: true, seam: 0 };
    let a = assign_work(true, true, Some(stone), &mut crews);
    assert_eq!(a, Assigned::MinedOut);
    assert_eq!(a.text().as_deref(), Some("that rock is mined out"));
    assert_eq!(crews, vec![crew(Role::Miner)]);
    let mut tankers = vec![Cutter { role: Role::Tanker, job: Job::Work(9), escort: true }];
    let rock = Body { id: 4, rock: true, seam: 5 };
    assert_eq!(assign_work(true, true, Some(rock), &mut tankers), Assigned::Nothing);
    assert_eq!(tankers[0].escort, true, "nothing given, nothing changed");
    assert_eq!(assign_work(false, true, Some(rock), &mut crews), Assigned::Nothing);
    assert_eq!(assign_work(true, true, None, &mut crews), Assigned::Nothing);
    assert_eq!(Assigned::Nothing.text(), None);
}
