use swarm_app::bank::Bank;
use swarm_app::refit::{hull_label, next_rung, offers, Buy, Fleet, HullEntry, RESEARCH_COST, REPAIR_PER_CELL, SHIP_COST};
use swarm_app::roles::Role;
use swarm_app::run::{MapNode, RunMap, RunState};

/// A stand in for the fleet's hull list: a navy with three rungs and another
/// navy's frigate after it, which is what the ladder must not step onto.
fn shelf() -> Fleet {
    Fleet(
        [
            "terran_frigate",
            "terran_destroyer",
            "terran_cruiser",
            "karisen_frigate",
        ]
        .into_iter()
        .map(|key| HullEntry {
            key: key.into(),
            label: key.into(),
        })
        .collect(),
    )
}

/// A small map: a start that branches two ways, both ways meeting at the
/// last system.
fn chart() -> RunMap {
    let node = |seed: u64, next: Vec<u16>| MapNode { act: 0, seed, next };
    RunMap {
        nodes: vec![node(1, vec![1, 2]), node(2, vec![3]), node(3, vec![3]), node(4, vec![])],
    }
}

fn run_of(seed: u64, flagship: &str) -> RunState {
    RunState::new(seed, flagship, chart())
}

#[test]
fn the_ladder_is_the_navys_own_and_stops_at_the_top() {
    let f = shelf();
    assert_eq!(
        next_rung("terran_frigate", &f).as_deref(),
        Some("terran_destroyer")
    );
    assert_eq!(
        next_rung("terran_destroyer", &f).as_deref(),
        Some("terran_cruiser")
    );
    // Not the next hull on the shelf, which is another navy's.
    assert_eq!(next_rung("terran_cruiser", &f), None);
    assert_eq!(next_rung("karisen_frigate", &f), None);
    assert_eq!(next_rung("nothing_at_all", &f), None);
}

#[test]
fn a_purchase_costs_what_it_says_and_is_refused_when_it_cannot_be_paid() {
    let mut run = run_of(1, "terran_frigate");
    run.bank = Bank::default();
    // Nothing in the bank buys nothing.
    assert!(!Buy::Escort.take(&mut run));
    assert!(!Buy::Research(Role::Salvager).take(&mut run));
    assert_eq!(run.escorts, 1);
    // And the two currencies do not stand in for one another.
    run.bank.materials = 9000;
    assert!(!Buy::Research(Role::Salvager).take(&mut run));
    run.bank.data = RESEARCH_COST;
    assert!(Buy::Research(Role::Salvager).take(&mut run));
    assert_eq!(run.bank.data, 0);
    assert_eq!(run.bank.materials, 9000, "research spends no materials");
    assert!(run.unlocked.contains(&Role::Salvager));
    assert!(Buy::Ship(Role::Salvager).take(&mut run));
    assert_eq!(run.bank.materials, 9000 - SHIP_COST);
    assert_eq!(
        run.fleet.iter().filter(|&&r| r == Role::Salvager).count(),
        1
    );
}

#[test]
fn a_repair_is_priced_by_the_cells_it_welds_and_closes_all_of_them() {
    let mut run = run_of(2, "terran_frigate");
    run.scars = (0..40).collect();
    assert_eq!(Buy::Repair.price(&run).0, 40 * REPAIR_PER_CELL);
    run.bank.materials = 40 * REPAIR_PER_CELL - 1;
    assert!(!Buy::Repair.take(&mut run), "a cell short is a cell short");
    run.bank.materials += 1;
    assert!(Buy::Repair.take(&mut run));
    assert!(run.scars.is_empty());
    assert_eq!(run.bank.materials, 0);
}

#[test]
fn the_yard_offers_what_the_run_can_actually_use() {
    let f = shelf();
    let mut run = run_of(3, "terran_frigate");
    let first = offers(&run, &f);
    assert!(
        !first.contains(&Buy::Repair),
        "a sound hull is not offered a weld"
    );
    assert!(
        first.contains(&Buy::Ship(Role::Miner)),
        "what it has, it can build"
    );
    assert!(
        !first.contains(&Buy::Ship(Role::Salvager)),
        "and what it has not researched, it cannot"
    );
    assert!(first.contains(&Buy::Research(Role::Salvager)));
    assert!(first.contains(&Buy::Refit("terran_destroyer".into())));
    // Researching a role moves it from one list to the other, which is
    // the whole of the tech tree: data buys the right to spend materials.
    run.bank.data = RESEARCH_COST;
    assert!(Buy::Research(Role::Salvager).take(&mut run));
    run.scars.push(7);
    let then = offers(&run, &f);
    assert!(then.contains(&Buy::Ship(Role::Salvager)));
    assert!(!then.contains(&Buy::Research(Role::Salvager)));
    assert_eq!(
        then.first(),
        Some(&Buy::Repair),
        "what is wrong is read first"
    );
}

#[test]
fn a_run_only_moves_along_a_branch_it_is_standing_on() {
    let mut run = run_of(0xBEEF, "terran_frigate");
    let was = run.at;
    let branches = run.node().next.clone();
    assert!(!branches.is_empty(), "a start node leads somewhere");
    // Somewhere it cannot reach from here leaves it where it is.
    let far = (0..u16::MAX).find(|n| !branches.contains(n) && *n != was);
    run.go(far.expect("a node it cannot reach"));
    assert_eq!(run.at, was);
    run.go(branches[0]);
    assert_eq!(run.at, branches[0]);
}

#[test]
fn the_offers_come_in_reading_order() {
    let f = shelf();
    let mut run = run_of(4, "terran_frigate");
    run.scars = vec![1, 2, 3];
    let o = offers(&run, &f);
    assert_eq!(
        o,
        vec![
            Buy::Repair,
            Buy::Escort,
            Buy::Ship(Role::Miner),
            Buy::Ship(Role::Tanker),
            Buy::Refit("terran_destroyer".into()),
            Buy::Research(Role::Salvager),
            Buy::Research(Role::Survey),
            Buy::Research(Role::Freighter),
            Buy::Research(Role::Tender),
        ]
    );
}

#[test]
fn a_flagship_at_the_top_of_its_ladder_is_offered_no_refit() {
    let f = shelf();
    let run = run_of(5, "terran_cruiser");
    assert!(!offers(&run, &f).iter().any(|b| matches!(b, Buy::Refit(_))));
}

#[test]
fn the_labels_say_what_each_purchase_is() {
    let mut run = run_of(6, "terran_frigate");
    run.scars = (0..12).collect();
    assert_eq!(Buy::Repair.label(&run), "Weld 12 cells");
    assert_eq!(Buy::Escort.label(&run), "Another terran frigate");
    assert_eq!(Buy::Ship(Role::Survey).label(&run), "Build a survey ship");
    assert_eq!(Buy::Research(Role::Tender).label(&run), "Research the tender");
    assert_eq!(
        Buy::Refit("terran_heavy_cruiser".into()).label(&run),
        "Refit to a terran heavy cruiser"
    );
}

#[test]
fn a_class_key_reads_with_spaces() {
    assert_eq!(hull_label("karisen_frigate"), "karisen frigate");
    assert_eq!(hull_label("freighter"), "freighter");
    assert_eq!(hull_label("_a__b_"), " a  b ");
}

#[test]
fn an_escort_and_a_refit_cost_what_they_say() {
    let mut run = run_of(7, "terran_frigate");
    run.bank.materials = 100_000;
    run.bank.data = 100_000;
    let before = run.bank;
    assert!(Buy::Escort.take(&mut run));
    assert_eq!(run.escorts, 2);
    assert_eq!(run.bank.materials, before.materials - Buy::Escort.price(&run).0);
    let refit = Buy::Refit("terran_destroyer".into());
    let (m, d) = refit.price(&run);
    let at = run.bank;
    assert!(refit.take(&mut run));
    assert_eq!(run.flagship, "terran_destroyer");
    assert_eq!(run.bank.materials, at.materials - m);
    assert_eq!(run.bank.data, at.data - d);
}

#[test]
fn a_refused_purchase_changes_nothing() {
    let mut run = run_of(8, "terran_frigate");
    run.bank.materials = 1;
    run.bank.data = 1;
    let refit = Buy::Refit("terran_destroyer".into());
    assert!(!refit.take(&mut run));
    assert_eq!(run.flagship, "terran_frigate");
    assert_eq!(run.bank.materials, 1);
    assert_eq!(run.bank.data, 1);
    assert!(!Buy::Ship(Role::Tender).take(&mut run));
    assert_eq!(run.fleet, vec![Role::Miner, Role::Tanker]);
}
