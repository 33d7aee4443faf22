use swarm_app::bank::{Bank, Yield, JUMP_FUEL, RESERVE};
use swarm_app::roles::Role;
use swarm_app::run::{jump_out, JumpDrive, MapNode, RunMap, RunState, Spool};
use swarm_app::salvage::{apply_scars, record_piece, record_salvage, rebuild_in_field, scars_of, Rebuild, Remains, REBUILD_COST, REBUILD_DATA};
use swarm_app::run::{reset_retreat, Hulk};
use swarm_app::tide::{tide_carriers, TideState};
use swarm_app::state::{AppState, NextState, Outcome};
use swarm_app::production::SKIRMISH_BANK;
use swarm_app::report::{headless_passes, retreat_line, RockFact};

fn chart() -> RunMap {
    let node = |seed: u64, next: Vec<u16>| MapNode { act: 0, seed, next };
    RunMap {
        nodes: vec![node(1, vec![2, 1]), node(2, vec![3]), node(3, vec![3]), node(4, vec![])],
    }
}

fn y(materials: u32, volatiles: u32, data: u32) -> Yield {
    Yield { materials, volatiles, data }
}

#[test]
fn a_price_is_paid_whole_or_not_at_all() {
    let mut b = Bank { materials: 10, volatiles: 3, fuel: 0, data: 5 };
    assert!(!b.spend(y(10, 4, 0)), "the ice is a cell short");
    assert_eq!(b, Bank { materials: 10, volatiles: 3, fuel: 0, data: 5 });
    assert!(b.spend(y(10, 3, 5)));
    assert_eq!(b, Bank { materials: 0, volatiles: 0, fuel: 0, data: 0 });
}

#[test]
fn what_is_landed_can_be_spent_again() {
    let start = Bank { materials: 7, volatiles: 1, fuel: 4, data: 2 };
    let mut b = start;
    b.take(y(30, 20, 10));
    assert_eq!(b, Bank { materials: 37, volatiles: 21, fuel: 4, data: 12 });
    assert!(b.afford(y(30, 20, 10)));
    assert!(b.spend(y(30, 20, 10)));
    assert_eq!(b, start);
}

#[test]
fn the_tanker_refines_one_cell_on_its_cadence() {
    let mut b = Bank { materials: 0, volatiles: 2, fuel: 5, data: 0 };
    assert!(!b.refine(31, true), "off the cadence");
    assert!(!b.refine(30, false), "no tanker, no fuel");
    assert!(b.refine(60, true));
    assert_eq!((b.volatiles, b.fuel), (1, 6));
    assert!(b.refine(90, true));
    assert!(!b.refine(120, true), "a hold of nothing refines nothing");
    assert_eq!((b.volatiles, b.fuel), (0, 7));
}

#[test]
fn a_jump_never_leaves_the_tank_below_nought() {
    let mut b = Bank { materials: 0, volatiles: 0, fuel: 75, data: 0 };
    b.burn_jump();
    assert_eq!(b.fuel, 75 - JUMP_FUEL);
    b.burn_jump();
    assert_eq!(b.fuel, 0);
}

#[test]
fn a_run_opens_with_the_reserve_and_two_ships() {
    let run = RunState::new(9, "terran_cruiser", chart());
    assert_eq!(run.bank, Bank { materials: 0, volatiles: 0, fuel: RESERVE, data: 0 });
    // Enough for one hop, never enough for two.
    assert!(run.bank.can_jump());
    let mut after = run.bank;
    after.burn_jump();
    assert!(!after.can_jump());
    assert_eq!(run.fleet, vec![Role::Miner, Role::Tanker]);
    assert_eq!(run.escorts, 1);
    assert_eq!(run.at, 0);
    assert!(!run.done());
}

#[test]
fn the_drive_spools_only_when_asked_and_paid_for() {
    let mut d = JumpDrive::default();
    let empty = Bank { materials: 0, volatiles: 0, fuel: 10, data: 0 };
    let full = Bank { materials: 0, volatiles: 0, fuel: 60, data: 0 };
    assert_eq!(d.ask(false, true, &full, 100), Spool::Ignored, "not a retreat");
    assert_eq!(d.ask(true, false, &full, 100), Spool::Ignored, "not asked");
    assert_eq!(d.ask(true, true, &empty, 100), Spool::NotEnoughFuel);
    assert!(!d.spooling());
    assert_eq!(d.ask(true, true, &full, 100), Spool::Spooling(1900));
    assert!(d.spooling());
    assert_eq!(d.ask(true, true, &full, 200), Spool::Ignored, "already spooling");
    assert!(!d.ready(1899));
    assert!(d.ready(1900));
}

#[test]
fn a_scripted_jump_is_set_on_the_first_tick() {
    let mut d = JumpDrive::default();
    d.script(5, Some(300));
    assert_eq!(d.ready_at, None);
    d.script(0, Some(300));
    assert_eq!(d.ready_at, Some(300));
}

#[test]
fn a_jump_takes_what_was_inside_the_field_to_the_next_system() {
    let mut d = JumpDrive::default();
    let mut bank = Bank { materials: 50, volatiles: 0, fuel: 64, data: 3 };
    let mut run = RunState::new(1, "terran_frigate", chart());
    let went = vec![None, Some(Role::Miner), Some(Role::Salvager), None];
    let mut outcome = Outcome::fresh();
    let mut next = NextState(None);
    assert_eq!(
        jump_out(&mut d, &mut bank, &mut run, &mut outcome, &mut next, 10, &went, 2),
        None,
        "not spooled"
    );
    assert_eq!(outcome, Outcome::fresh());
    assert_eq!(next.0, None);
    d.ready_at = Some(10);
    let report = jump_out(&mut d, &mut bank, &mut run, &mut outcome, &mut next, 10, &went, 2).unwrap();
    assert!(outcome.won && outcome.jumped && !outcome.escaped);
    assert_eq!((outcome.ticks, outcome.left), (10, 2));
    assert_eq!(next.0, Some(AppState::Result));
    assert_eq!(report.left, 2);
    assert!(!report.escaped);
    assert_eq!(bank.fuel, 4);
    assert_eq!(run.bank, bank);
    assert_eq!(run.fleet, vec![Role::Miner, Role::Salvager]);
    assert_eq!(run.systems, 1);
    assert_eq!(run.at, 2, "the first branch");
    assert!(d.jumped);
    assert_eq!(d.ready_at, None);
    assert_eq!(d.left, 2);
}

#[test]
fn the_jump_out_of_the_last_system_is_the_run_escaped() {
    let mut d = JumpDrive { ready_at: Some(0), left: 0, jumped: false };
    let mut bank = Bank { materials: 0, volatiles: 0, fuel: 60, data: 0 };
    let mut run = RunState::new(1, "terran_frigate", chart());
    run.at = 3;
    assert!(run.done());
    let mut outcome = Outcome::fresh();
    let mut next = NextState(None);
    let report = jump_out(&mut d, &mut bank, &mut run, &mut outcome, &mut next, 5, &vec![], 0).unwrap();
    assert!(report.escaped);
    assert!(outcome.escaped && outcome.won);
    assert_eq!(run.at, 3);
}

#[test]
fn advance_takes_the_first_branch_and_stops_at_the_last_node() {
    let mut run = RunState::new(1, "terran_frigate", chart());
    run.advance();
    assert_eq!(run.at, 2);
    run.advance();
    assert_eq!(run.at, 3);
    run.advance();
    assert_eq!(run.at, 3);
}

fn hulk(ship: u32, whole: u32, got: u32) -> Hulk {
    Hulk { ship, class: "terran_frigate".into(), whole, got }
}

#[test]
fn a_rebuild_is_priced_by_how_much_came_back() {
    assert_eq!(hulk(1, 100, 49).rebuild_price(), None, "under half is scrap");
    assert_eq!(hulk(1, 100, 50).rebuild_price(), Some((REBUILD_COST, REBUILD_DATA * 3)));
    assert_eq!(hulk(1, 100, 69).rebuild_price(), Some((REBUILD_COST, REBUILD_DATA * 3)));
    assert_eq!(hulk(1, 100, 70).rebuild_price(), Some((REBUILD_COST, REBUILD_DATA)));
    assert_eq!(hulk(1, 100, 250).rebuild_price(), Some((REBUILD_COST, REBUILD_DATA)));
    assert_eq!(hulk(1, 0, 0).rebuild_price(), None);
    assert!(hulk(1, 10, 7).in_field());
    assert!(!hulk(1, 10, 6).in_field());
}

#[test]
fn the_best_hulk_is_rebuilt_where_it_lies() {
    let mut run = RunState::new(1, "terran_frigate", chart());
    run.hulks = vec![hulk(1, 100, 60), hulk(2, 100, 75), hulk(3, 100, 90), hulk(3, 40, 1), hulk(4, 10, 9)];
    let mut bank = Bank { materials: 0, volatiles: 0, fuel: 0, data: 0 };
    match rebuild_in_field(&mut run, &mut bank) {
        Rebuild::Short { class, materials, data } => {
            assert_eq!(class, "terran_frigate");
            assert_eq!((materials, data), (REBUILD_COST, REBUILD_DATA));
        }
        other => panic!("expected the bank to be short, got {other:?}"),
    }
    assert_eq!(run.hulks.len(), 5);
    bank.materials = REBUILD_COST;
    bank.data = REBUILD_DATA + 1;
    match rebuild_in_field(&mut run, &mut bank) {
        Rebuild::Rebuilt(h) => assert_eq!(h, hulk(3, 100, 90), "most recovered first"),
        other => panic!("expected a rebuild, got {other:?}"),
    }
    assert_eq!(bank.materials, 0);
    assert_eq!(bank.data, 1);
    assert_eq!(run.escorts, 2);
    assert_eq!(run.hulks, vec![hulk(1, 100, 60), hulk(2, 100, 75), hulk(4, 10, 9)]);
}

#[test]
fn level_hulks_are_taken_in_the_order_they_died() {
    let mut run = RunState::new(1, "terran_frigate", chart());
    run.hulks = vec![hulk(5, 10, 8), hulk(6, 20, 16)];
    let mut bank = Bank { materials: 1_000_000, volatiles: 0, fuel: 0, data: 1_000_000 };
    match rebuild_in_field(&mut run, &mut bank) {
        Rebuild::Rebuilt(h) => assert_eq!(h.ship, 5),
        other => panic!("expected a rebuild, got {other:?}"),
    }
}

#[test]
fn nothing_is_rebuilt_from_scrap() {
    let mut run = RunState::new(1, "terran_frigate", chart());
    run.hulks = vec![hulk(1, 100, 60)];
    let mut bank = Bank { materials: 1_000_000, volatiles: 0, fuel: 0, data: 1_000_000 };
    assert!(matches!(rebuild_in_field(&mut run, &mut bank), Rebuild::Nothing));
    assert_eq!(run.hulks.len(), 1);
    assert_eq!(bank.materials, 1_000_000);
}

#[test]
fn salvage_carries_only_the_difference() {
    let mut hulks: Vec<Hulk> = Vec::new();
    let mut piece = Remains { ship: 9, class: "terran_frigate".into(), whole: 100, got: 30, banked: 0 };
    record_piece(&mut piece, &mut hulks);
    assert_eq!(hulks, vec![hulk(9, 100, 30)]);
    assert_eq!(piece.banked, 30);
    record_piece(&mut piece, &mut hulks);
    assert_eq!(hulks, vec![hulk(9, 100, 30)], "nothing new, nothing carried");
    piece.got = 45;
    record_piece(&mut piece, &mut hulks);
    assert_eq!(hulks, vec![hulk(9, 100, 45)]);
    let mut other = Remains { ship: 9, class: "terran_frigate".into(), whole: 100, got: 5, banked: 0 };
    record_piece(&mut other, &mut hulks);
    assert_eq!(hulks, vec![hulk(9, 100, 50)], "two pieces of one ship are one hulk");
}

#[test]
fn the_scars_are_the_dead_cells_in_order() {
    assert_eq!(scars_of(&vec![false, true, true, false, true]), vec![1, 2, 4]);
    assert!(scars_of(&vec![false; 6]).is_empty());
}

#[test]
fn killing_a_carrier_does_not_bring_another() {
    let mut t = TideState::fresh();
    assert_eq!(tide_carriers(&mut t, true, 1), 1);
    assert_eq!(tide_carriers(&mut t, true, 4), 3);
    // Two of the four were shot down; the curve still says four, and four
    // have been spawned.
    assert_eq!(tide_carriers(&mut t, true, 4), 0);
    assert_eq!(tide_carriers(&mut t, true, 6), 2);
    assert_eq!(t.spawned, 6);
    let mut calm = TideState::fresh();
    assert_eq!(tide_carriers(&mut calm, false, 9), 0);
    assert_eq!(calm.spawned, 0);
}

#[test]
fn a_run_carries_its_bank_and_not_its_drive_or_tide() {
    let mut run = RunState::new(1, "terran_frigate", chart());
    run.bank = Bank { materials: 120, volatiles: 7, fuel: 33, data: 9 };
    let mut bank = Bank { materials: 1, volatiles: 1, fuel: 1, data: 1 };
    let mut drive = JumpDrive { ready_at: Some(40), left: 2, jumped: true };
    let mut tide = TideState { spawned: 5 };
    reset_retreat(true, &run, &mut bank, &mut drive, &mut tide);
    assert_eq!(bank, run.bank);
    assert_eq!(drive, JumpDrive { ready_at: None, left: 0, jumped: false });
    assert_eq!(tide.spawned, 0);

    let mut drive = JumpDrive { ready_at: Some(40), left: 2, jumped: true };
    let mut tide = TideState { spawned: 5 };
    reset_retreat(false, &run, &mut bank, &mut drive, &mut tide);
    assert_eq!(bank, Bank { materials: SKIRMISH_BANK, volatiles: 0, fuel: 0, data: 0 });
    assert_eq!(drive.ready_at, Some(40));
    assert_eq!(tide.spawned, 5);
}

#[test]
fn the_flagship_arrives_with_the_holes_it_left_with() {
    let left = vec![false, true, true, false, false, true];
    let scars = scars_of(&left);
    assert_eq!(scars, vec![1, 2, 5]);
    let mut arrived = vec![false; 6];
    apply_scars(&scars, &mut arrived);
    assert_eq!(arrived, left);
    // A scar past the end of a smaller hull is not a cell of it.
    let mut small = vec![false; 3];
    apply_scars(&scars, &mut small);
    assert_eq!(small, vec![false, true, true]);
}

#[test]
fn the_headless_report_says_what_the_retreat_did() {
    let rocks = vec![
        RockFact { ice: false, seam: 40 },
        RockFact { ice: true, seam: 7 },
        RockFact { ice: false, seam: 2 },
    ];
    let bank = Bank { materials: 3000, volatiles: 12, fuel: 18, data: 300 };
    assert_eq!(
        retreat_line(true, &rocks, &bank).as_deref(),
        Some(
            "retreat: 3 rocks with 42 ore and 7 ice left in them; banked 3000 materials, \
             12 volatiles, 300 data, 18.0 fuel of 60"
        )
    );
    assert_eq!(retreat_line(false, &rocks, &bank), None);
    assert_eq!(
        retreat_line(true, &Vec::new(), &Bank::opening()).as_deref(),
        Some("retreat: 0 rocks with 0 ore and 0 ice left in them; banked 0 materials, 0 volatiles, 0 data, 60.0 fuel of 60")
    );
}

#[test]
fn every_piece_is_carried_across_and_only_the_difference() {
    let piece = |ship: u32, got: u32, banked: u32| Remains {
        ship,
        class: "terran_frigate".into(),
        whole: 100,
        got,
        banked,
    };
    let mut pieces = vec![piece(1, 10, 4), piece(2, 5, 0), piece(1, 3, 3), piece(1, 7, 0)];
    let mut hulks = vec![Hulk { ship: 1, class: "terran_frigate".into(), whole: 100, got: 20 }];
    record_salvage(&mut pieces, &mut hulks);
    assert_eq!(hulks.len(), 2);
    assert_eq!(hulks[0].got, 20 + 6 + 7);
    assert_eq!((hulks[1].ship, hulks[1].got), (2, 5));
    let banked: Vec<u32> = pieces.iter().map(|p| p.banked).collect();
    assert_eq!(banked, vec![10, 5, 3, 7]);
    // A second pass owes nothing.
    record_salvage(&mut pieces, &mut hulks);
    assert_eq!(hulks[0].got, 33);
    assert_eq!(hulks[1].got, 5);
}

fn picture(w: usize, h: usize, lit: &[(usize, usize, u8)]) -> Vec<u8> {
    let mut data = vec![0u8; w * h * 4];
    for &(x, y, v) in lit {
        let o = (y * w + x) * 4;
        data[o] = v;
        data[o + 1] = v;
        data[o + 2] = v;
    }
    data
}

#[test]
fn a_headless_picture_passes_only_lit_in_the_middle_with_every_texture() {
    assert_eq!(headless_passes(&picture(6, 4, &[(2, 1, 30)]), 6, 4, true), Some(true));
    assert_eq!(headless_passes(&picture(6, 4, &[(2, 1, 30)]), 6, 4, false), Some(false));
    assert_eq!(headless_passes(&picture(6, 4, &[(0, 0, 30)]), 6, 4, true), Some(false), "nothing in the middle");
    assert_eq!(headless_passes(&picture(6, 4, &[(2, 1, 20)]), 6, 4, true), Some(false), "sixty is not lit");
    assert_eq!(headless_passes(&vec![0u8; 10], 6, 4, true), None);
    // Under one pixel in a hundred lit is a failed picture.
    let w = 20;
    let h = 10;
    assert_eq!(headless_passes(&picture(w, h, &[(8, 4, 99), (9, 4, 99)]), w, h, true), Some(false));
    assert_eq!(headless_passes(&picture(w, h, &[(8, 4, 99), (9, 4, 99), (10, 4, 99)]), w, h, true), Some(true));
}
