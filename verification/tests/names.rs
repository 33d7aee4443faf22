use swarm_app::orders::{
    guard_input, hold_guard, nav_input, select_input, set_stance, take_selection, FleetStance,
    GuardStep, Guarding, Hit, LeftButton, Seen,
    Markers, NavAck, NavAsk, NavFrame, OrderMode, Selecting, Stance,
};
use swarm_app::roles::{all_roles, Role};
use swarm_app::state::{initial_state, panel_of, view_of, AppState, PanelTab, Tick, ViewTab};
use swarm_app::text::{decimal_of, parse_unsigned, split_all};

#[test]
fn every_role_is_named_by_its_word_and_its_hull() {
    for r in all_roles() {
        assert_eq!(Role::parse(r.hull()), Some(r));
        let word = r.label().split(' ').next().unwrap();
        assert_eq!(Role::parse(word), Some(r));
    }
    assert_eq!(Role::parse("survey"), Some(Role::Survey));
    assert_eq!(Role::parse("survey ship"), None, "a label is read by its first word");
    assert_eq!(Role::parse("freighter"), Some(Role::Freighter));
    assert_eq!(Role::parse(""), None);
    assert_eq!(Role::parse("Miner"), None);
}

#[test]
fn a_role_knows_what_it_can_work() {
    assert!(Role::Miner.cuts_rock() && !Role::Miner.cuts_wreck());
    assert!(Role::Salvager.cuts_wreck() && !Role::Salvager.cuts_rock());
    assert!(Role::Survey.cuts_rock() && Role::Survey.cuts_wreck() && Role::Survey.scans());
    assert!(Role::Tender.mends() && !Role::Tanker.mends());
    assert_eq!(Role::Salvager.hull(), "civil_hauler");
    assert_eq!(Role::Survey.label(), "survey ship");
}

#[test]
fn the_stance_cell_goes_round() {
    let mut f = FleetStance(Stance::Aggressive);
    let mut picked = vec![
        Markers { defensive: false, hold_fire: false },
        Markers { defensive: false, hold_fire: true },
    ];
    assert_eq!(set_stance(&mut f, &mut picked), Stance::Defensive);
    assert_eq!(f.0.label(), "Defensive");
    assert!(picked.iter().all(|m| m.defensive && !m.hold_fire));
    assert_eq!(set_stance(&mut f, &mut picked), Stance::Hold);
    assert_eq!(f.0.label(), "Hold fire");
    assert!(picked.iter().all(|m| !m.defensive && m.hold_fire));
    assert_eq!(set_stance(&mut f, &mut Vec::new()), Stance::Aggressive);
    assert_eq!(picked.len(), 2);
}

#[test]
fn a_stance_writes_exactly_its_own_marker() {
    let mut m = Markers { defensive: false, hold_fire: true };
    Stance::Defensive.apply(&mut m);
    assert!(m.defensive && !m.hold_fire);
    Stance::Hold.apply(&mut m);
    assert!(!m.defensive && m.hold_fire);
    Stance::Aggressive.apply(&mut m);
    assert!(!m.defensive && !m.hold_fire);
}

#[test]
fn the_app_opens_where_it_is_asked() {
    assert_eq!(initial_state(Some("menu"), true, true), Ok(AppState::Menu));
    assert_eq!(initial_state(Some("setup"), false, false), Ok(AppState::Setup));
    assert_eq!(initial_state(Some("result"), false, false), Ok(AppState::Result));
    assert_eq!(initial_state(Some("map"), false, false), Ok(AppState::Chart));
    assert_eq!(initial_state(Some("lobby"), false, false), Err("lobby".to_string()));
    assert_eq!(initial_state(None, true, false), Ok(AppState::Playing));
    assert_eq!(initial_state(None, false, true), Ok(AppState::Playing));
    assert_eq!(initial_state(None, false, false), Ok(AppState::Menu));
    assert_eq!(view_of("sensors"), Some(ViewTab::Sensors));
    assert_eq!(view_of("mission"), Some(ViewTab::Mission));
    assert_eq!(view_of(""), None);
    assert_eq!(panel_of("launch"), PanelTab::Launch);
    assert_eq!(panel_of("research"), PanelTab::Research);
    assert_eq!(panel_of("anything"), PanelTab::Build);
}

#[test]
fn a_cue_fires_once_at_or_past_its_mark() {
    let mut fired = false;
    assert!(!Tick { tick: 9 }.cue(Some(10), &mut fired));
    assert!(!Tick { tick: 9 }.cue(None, &mut fired));
    assert!(Tick { tick: 14 }.cue(Some(10), &mut fired), "a frame that jumped past the mark");
    assert!(fired);
    assert!(!Tick { tick: 15 }.cue(Some(10), &mut fired));
}

#[test]
fn numbers_are_read_and_written_in_decimal() {
    assert_eq!(parse_unsigned("0", 10), Some(0));
    assert_eq!(parse_unsigned("+10", 10), Some(10));
    assert_eq!(parse_unsigned("11", 10), None);
    assert_eq!(parse_unsigned("+", 10), None);
    assert_eq!(parse_unsigned("", 10), None);
    assert_eq!(parse_unsigned("1 2", 100), None);
    assert_eq!(parse_unsigned("18446744073709551615", u64::MAX), Some(u64::MAX));
    assert_eq!(parse_unsigned("18446744073709551616", u64::MAX), None);
    let s: String = decimal_of(90210).into_iter().collect();
    assert_eq!(s, "90210");
    let s: String = decimal_of(0).into_iter().collect();
    assert_eq!(s, "0");
}

#[test]
fn a_line_is_cut_into_every_piece() {
    let cut = |s: &str| -> Vec<String> {
        split_all(&s.chars().collect(), ',').into_iter().map(|p| p.into_iter().collect()).collect()
    };
    assert_eq!(cut("a,b"), vec!["a", "b"]);
    assert_eq!(cut(""), vec![""]);
    assert_eq!(cut(",x,"), vec!["", "x", ""]);
}

fn button() -> LeftButton {
    LeftButton {
        over_ui: false,
        alt: false,
        just_pressed: false,
        held: false,
        on_window: true,
        focused: true,
        escape: false,
        shift: false,
    }
}

#[test]
fn a_box_opens_on_the_press_and_closes_on_the_release() {
    let mut mode = OrderMode::Idle;
    assert_eq!(select_input(&mut mode, &button()), Selecting::Nothing);
    let press = LeftButton { just_pressed: true, held: true, ..button() };
    assert_eq!(select_input(&mut mode, &press), Selecting::Open);
    assert_eq!(mode, OrderMode::Box);
    let drag = LeftButton { held: true, on_window: false, ..button() };
    assert_eq!(select_input(&mut mode, &drag), Selecting::Drag);
    // Released off the window: the release is the button's, not the pointer's.
    let release = LeftButton { on_window: false, shift: true, ..button() };
    assert_eq!(select_input(&mut mode, &release), Selecting::Take { add: true });
    assert_eq!(mode, OrderMode::Idle);
}

#[test]
fn a_box_is_dropped_when_the_window_goes_and_ignored_while_aiming() {
    let mut mode = OrderMode::Box;
    let lost = LeftButton { focused: false, held: true, ..button() };
    assert_eq!(select_input(&mut mode, &lost), Selecting::Drop);
    assert_eq!(mode, OrderMode::Idle);
    let over = LeftButton { just_pressed: true, over_ui: true, ..button() };
    assert_eq!(select_input(&mut mode, &over), Selecting::Nothing);
    let mut aiming = OrderMode::Move;
    let press = LeftButton { just_pressed: true, held: true, ..button() };
    assert_eq!(select_input(&mut aiming, &press), Selecting::Nothing);
    assert_eq!(aiming, OrderMode::Move);
    let mut guard = OrderMode::Guard;
    assert_eq!(select_input(&mut guard, &press), Selecting::Nothing);
    assert_eq!(guard, OrderMode::Guard);
}

fn frame(chosen: u32) -> NavFrame {
    NavFrame {
        escape: false,
        window: true,
        over_ui: false,
        alt: false,
        right: false,
        left: false,
        chosen,
        first_aim: false,
    }
}

#[test]
fn a_move_order_opens_on_the_right_and_commits_on_the_left() {
    let mut mode = OrderMode::Idle;
    let mut ask = NavAsk { open: false, rally: false };
    let open = nav_input(&mut mode, &mut ask, &NavFrame { right: true, ..frame(3) });
    assert!(open.opened && open.aim && open.ack.is_none());
    assert_eq!(mode, OrderMode::Move);
    // The right button inside an open order only aims.
    let again = nav_input(&mut mode, &mut ask, &NavFrame { right: true, ..frame(3) });
    assert!(!again.commit && again.aim);
    assert_eq!(mode, OrderMode::Move);
    let go = nav_input(&mut mode, &mut ask, &NavFrame { left: true, ..frame(3) });
    assert!(go.commit);
    assert_eq!(go.ack, Some(NavAck::UnderWay(3)));
    assert_eq!(go.ack.unwrap().text(), "3 ships under way");
    assert_eq!(NavAck::UnderWay(1).text(), "1 ship under way");
    assert_eq!(mode, OrderMode::Idle);
}

#[test]
fn escape_cancels_and_nothing_selected_is_said() {
    let mut mode = OrderMode::Move;
    let mut ask = NavAsk { open: true, rally: false };
    let done = nav_input(&mut mode, &mut ask, &NavFrame { escape: true, left: true, ..frame(2) });
    assert_eq!(done.ack, Some(NavAck::Cancelled));
    assert!(!done.commit);
    assert_eq!(mode, OrderMode::Idle);
    assert_eq!(NavAck::Cancelled.text(), "move order cancelled");
    let none = nav_input(&mut mode, &mut ask, &NavFrame { right: true, ..frame(0) });
    assert_eq!(none.ack, Some(NavAck::NothingChosen));
    assert_eq!(mode, OrderMode::Idle);
    assert!(!ask.open, "the button's ask is spent");
    assert_eq!(NavAck::NothingChosen.text(), "nothing to order: select a ship first");
}

#[test]
fn the_rally_cell_names_a_point_instead_of_moving_ships() {
    let mut mode = OrderMode::Idle;
    let mut ask = NavAsk { open: true, rally: true };
    let opened = nav_input(&mut mode, &mut ask, &frame(1));
    assert!(opened.opened);
    assert_eq!(mode, OrderMode::Move);
    let set = nav_input(&mut mode, &mut ask, &NavFrame { left: true, ..frame(1) });
    assert!(set.rally && !set.commit);
    assert_eq!(set.ack.unwrap().text(), "rally point set");
    assert_eq!(ask, NavAsk { open: false, rally: false });
    // A band box owns the buttons.
    let mut boxed = OrderMode::Box;
    let d = nav_input(&mut boxed, &mut ask, &NavFrame { right: true, left: true, ..frame(4) });
    assert!(!d.commit && !d.opened);
    assert_eq!(boxed, OrderMode::Box);
}

#[test]
fn a_selection_guards_the_nearest_other_live_ship() {
    let hits = vec![
        Hit { id: 7, dead: false },
        Hit { id: 9, dead: true },
        Hit { id: 4, dead: false },
    ];
    // 7 is one of the picked ships, and 9 is a wreck.
    let mut mode = OrderMode::Guard;
    let g = guard_input(&mut mode, false, true, true, &hits, &vec![7, 8]);
    assert_eq!(g, Guarding::Guard { of: 4, ships: 2 });
    assert_eq!(g.text().as_deref(), Some("2 guarding"));
    assert_eq!(mode, OrderMode::Idle);

    let mut mode = OrderMode::Guard;
    let g = guard_input(&mut mode, false, true, true, &vec![Hit { id: 7, dead: false }], &vec![7]);
    assert_eq!(g, Guarding::NothingThere);
    assert_eq!(g.text().as_deref(), Some("nothing there to guard"));
    assert_eq!(mode, OrderMode::Idle);
}

#[test]
fn guard_waits_for_its_press_and_escape_leaves_it() {
    let mut mode = OrderMode::Guard;
    assert_eq!(guard_input(&mut mode, false, false, true, &Vec::new(), &Vec::new()), Guarding::Nothing);
    assert_eq!(mode, OrderMode::Guard);
    let g = guard_input(&mut mode, true, true, true, &Vec::new(), &Vec::new());
    assert_eq!(g, Guarding::Cancelled);
    assert_eq!(g.text().as_deref(), Some("guard cancelled"));
    assert_eq!(mode, OrderMode::Idle);
    let mut idle = OrderMode::Idle;
    let hits = vec![Hit { id: 1, dead: false }];
    assert_eq!(guard_input(&mut idle, false, true, true, &hits, &Vec::new()), Guarding::Nothing);
    assert_eq!(Guarding::Nothing.text(), None);
}

#[test]
fn a_box_takes_the_fleet_and_never_a_carrier_or_a_wreck() {
    let seen = vec![
        Seen { id: 1, hive: true, dead: false, inside: true },
        Seen { id: 2, hive: false, dead: true, inside: true },
        Seen { id: 3, hive: false, dead: false, inside: false },
        Seen { id: 4, hive: false, dead: false, inside: true },
        Seen { id: 5, hive: false, dead: false, inside: true },
    ];
    assert_eq!(take_selection(&seen, false), vec![4, 5]);
    assert_eq!(take_selection(&seen, true), vec![4]);
    assert!(take_selection(&seen[..3].to_vec(), true).is_empty());
}

#[test]
fn a_guard_whose_charge_is_gone_or_a_wreck_stops_guarding() {
    assert_eq!(hold_guard(None, true), GuardStep::Drop);
    assert_eq!(hold_guard(Some(true), true), GuardStep::Drop);
    assert_eq!(hold_guard(Some(false), false), GuardStep::Skip);
    assert_eq!(hold_guard(Some(false), true), GuardStep::Fly);
}

#[test]
fn aim_opens_the_disc_on_the_first_frame_on_a_selection() {
    let mut mode = OrderMode::Idle;
    let mut ask = NavAsk { open: false, rally: false };
    let d = nav_input(&mut mode, &mut ask, &NavFrame { first_aim: true, ..frame(2) });
    assert!(d.scripted && d.aim);
    assert_eq!(mode, OrderMode::Move);
    // With nothing selected there is no order to open.
    let mut idle = OrderMode::Idle;
    let none = nav_input(&mut idle, &mut ask, &NavFrame { first_aim: true, ..frame(0) });
    assert!(!none.scripted);
    assert_eq!(idle, OrderMode::Idle);
}
