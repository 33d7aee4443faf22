use swarm_app::args::{parse_args, ArgError};
use swarm_app::roles::Role;

fn line(words: &[&str]) -> Vec<String> {
    words.iter().map(|w| w.to_string()).collect()
}

#[test]
fn nothing_asked_for_is_the_defaults() {
    let a = parse_args(&line(&[])).unwrap();
    assert!(!a.headless);
    assert_eq!(a.motes, 100_000);
    assert_eq!(a.hull, "terran_frigate");
    assert_eq!(a.out, "screenshot.png");
    assert_eq!((a.frames, a.width, a.height), (240, 1280, 800));
    assert_eq!((a.chewers, a.rocks, a.hives), (48, 14, 10));
    assert_eq!((a.fighters, a.cadence, a.fps), (12, 70, 120));
    assert_eq!(a.target_hull, "karisen_frigate");
    assert_eq!((a.seed, a.run_seed), (4242, 0xB0A7));
    assert_eq!(a.zoom, None);
    assert!(a.support.is_empty());
    assert!(!a.retreat && !a.sandbox && !a.hud);
}

#[test]
fn numbers_and_words_are_read_off_the_line() {
    let a = parse_args(&line(&[
        "--headless", "--motes", "5000", "--frames", "60", "--out", "shot.png", "--size", "640x480",
        "--hull", "karisen_cruiser", "--seed", "+77", "--rocks", "3",
    ]))
    .unwrap();
    assert!(a.headless);
    assert_eq!(a.motes, 5000);
    assert_eq!(a.frames, 60);
    assert_eq!(a.out, "shot.png");
    assert_eq!((a.width, a.height), (640, 480));
    assert_eq!(a.hull, "karisen_cruiser");
    assert_eq!(a.seed, 77);
    assert_eq!(a.rocks, 3);
}

#[test]
fn a_fraction_is_kept_as_it_was_written() {
    let a = parse_args(&line(&["--zoom", "3.5", "--launch-delay", "0", "--target", "1,2,3"])).unwrap();
    assert_eq!(a.zoom.as_deref(), Some("3.5"));
    assert_eq!(a.launch_delay.as_deref(), Some("0"));
    assert!(a.delay_set);
    assert_eq!(a.target.as_deref(), Some("1,2,3"));
}

#[test]
fn some_flags_make_a_mode() {
    let a = parse_args(&line(&["--jump", "900"])).unwrap();
    assert_eq!(a.jump, Some(900));
    assert!(a.retreat);
    let a = parse_args(&line(&["--fire", "slug,40"])).unwrap();
    assert_eq!(a.fire, Some(("slug".to_string(), 40)));
    assert!(a.sandbox);
    let a = parse_args(&line(&["--fire", "beam"])).unwrap();
    assert_eq!(a.fire, Some(("beam".to_string(), 40)), "tick forty when none is given");
    let a = parse_args(&line(&["--screen", "result"])).unwrap();
    assert_eq!(a.screen.as_deref(), Some("result"));
    assert!(a.hud);
    let a = parse_args(&line(&["--paused"])).unwrap();
    assert!(a.hud && a.paused);
    let a = parse_args(&line(&["--onward"])).unwrap();
    assert!(a.onward && a.retreat);
    let a = parse_args(&line(&["--blast", "12"])).unwrap();
    assert_eq!(a.blast, Some(12));
    assert!(a.sandbox);
}

#[test]
fn a_fleet_is_named_by_role_or_by_hull() {
    let a = parse_args(&line(&["--support", "miner,survey,civil_hauler"])).unwrap();
    assert_eq!(a.support, vec![Role::Miner, Role::Survey, Role::Salvager]);
    assert!(a.retreat);
    assert_eq!(
        parse_args(&line(&["--support", "miner,pirate"])).err(),
        Some(ArgError::NoRole("pirate".to_string()))
    );
    assert_eq!(
        parse_args(&line(&["--support", "miner,,tanker"])).err(),
        Some(ArgError::NoRole(String::new()))
    );
}

#[test]
fn a_bad_value_is_refused_with_how_the_flag_is_used() {
    assert_eq!(
        parse_args(&line(&["--motes", "lots"])).err(),
        Some(ArgError::BadValue("--motes N".to_string()))
    );
    assert_eq!(
        parse_args(&line(&["--frames", "-1"])).err(),
        Some(ArgError::BadValue("--frames N".to_string()))
    );
    assert_eq!(
        parse_args(&line(&["--motes", "4294967296"])).err(),
        Some(ArgError::BadValue("--motes N".to_string())),
        "one past the largest a count can hold"
    );
    assert_eq!(parse_args(&line(&["--motes", "4294967295"])).unwrap().motes, u32::MAX);
    assert_eq!(
        parse_args(&line(&["--size", "640"])).err(),
        Some(ArgError::BadValue("--size WxH".to_string()))
    );
    assert_eq!(
        parse_args(&line(&["--build", "fighter"])).err(),
        Some(ArgError::BadValue("--build WHAT,TICK".to_string()))
    );
    assert_eq!(
        parse_args(&line(&["--fire", "slug,soon"])).err(),
        Some(ArgError::BadValue("--fire WEAPON,TICK".to_string()))
    );
}

#[test]
fn a_value_missing_at_the_end_of_the_line_is_empty() {
    assert_eq!(
        parse_args(&line(&["--motes"])).err(),
        Some(ArgError::BadValue("--motes N".to_string()))
    );
    let a = parse_args(&line(&["--hull"])).unwrap();
    assert_eq!(a.hull, "");
}

#[test]
fn an_unknown_word_is_refused() {
    assert_eq!(
        parse_args(&line(&["--headless", "--warp"])).err(),
        Some(ArgError::Unknown("--warp".to_string()))
    );
}

#[test]
fn a_build_names_what_and_when() {
    let a = parse_args(&line(&["--build", "fighter,300"])).unwrap();
    assert_eq!(a.build_what, "fighter");
    assert_eq!(a.build, 300);
}

#[test]
fn the_last_word_for_a_flag_wins() {
    let a = parse_args(&line(&["--hives", "3", "--hives", "7"])).unwrap();
    assert_eq!(a.hives, 7);
}

#[test]
fn the_range_arms_only_its_own_weapons() {
    assert_eq!(
        parse_args(&line(&["--fire", "laser,40"])).err(),
        Some(ArgError::BadValue("--fire beam|flak|slug|torpedo|bite[,TICK]".to_string()))
    );
    assert_eq!(
        parse_args(&line(&["--fire", "phaser,soon"])).err(),
        Some(ArgError::BadValue("--fire beam|flak|slug|torpedo|bite[,TICK]".to_string())),
        "the weapon is named before the tick is read"
    );
    for w in ["beam", "flak", "slug", "torpedo", "bite"] {
        assert_eq!(parse_args(&line(&["--fire", w])).unwrap().fire, Some((w.to_string(), 40)));
    }
}
