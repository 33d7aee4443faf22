//! The command line: what a run can be asked for, and how that is read.
//!
//! Every flag is matched here and every number is read here. What is left
//! for the caller is the text of the flags that take a fraction (a zoom, an
//! angle, a delay, a point in space), which is kept exactly as it was given.

use vstd::prelude::*;
use crate::roles::{parse_in, role_order, Role};
use crate::text::{
    chars_of, parse_unsigned, same, same_chars, spec_parse_unsigned, spec_split, spec_split_once,
    split_all, split_once, string_of,
};

verus! {

broadcast use vstd::string::group_string_axioms;

/// What the command line asked for.
///
/// The fields that hold a fraction hold its text: `None` where the flag was
/// not given and the caller's own default stands.
#[derive(Debug)]
pub struct Args {
    pub headless: bool,
    pub motes: u32,
    pub hull: String,
    pub out: String,
    pub frames: u32,
    pub width: u32,
    pub height: u32,
    pub chewers: usize,
    /// How many reinforcements are already inbound when the app starts.
    pub reinforce: u32,
    /// How many asteroids to strew between the ship and the carriers.
    pub rocks: usize,
    /// How many fighters the ship puts up.
    pub fighters: u32,
    /// How long the carriers sit before the first mote comes out, in seconds.
    pub launch_delay: Option<String>,
    /// Where the camera sits, in radians.
    pub yaw: Option<String>,
    pub pitch: Option<String>,
    /// Ride a collector with the camera.
    pub watch_craft: bool,
    /// Draw the HUD in a headless run.
    pub hud: bool,
    /// Start paused, with the menu open.
    pub paused: bool,
    /// Whether `--launch-delay` was actually given.
    pub delay_set: bool,
    /// Camera distance in hull radii.
    pub zoom: Option<String>,
    /// What the camera looks at, as `x,y,z`.
    pub target: Option<String>,
    /// Force the reactor at this tick. Nought leaves it to the hull.
    pub explode: u32,
    pub wreck: u32,
    /// `--view mission|sensors|menu`.
    pub view: String,
    /// `--panel build|research|launch`.
    pub panel: String,
    /// `--build WHAT,TICK`: press one build row at that tick.
    pub build: u32,
    pub build_what: String,
    /// Ticks between one gun firing and the next. Nought silences them.
    pub cadence: u32,
    /// How many motherships the swarm flies from.
    pub hives: usize,
    /// One move order at startup, as `x,y,z`.
    pub order: Option<String>,
    /// The move disc open at startup, aimed here, as `x,y,z`.
    pub aim: Option<String>,
    pub showcase: bool,
    /// Frames a second, at most. Nought lifts the cap.
    pub fps: u32,
    /// How thick the swarm is to light.
    pub thickness: Option<String>,
    /// Advance exactly one tick a frame rather than by the wall clock.
    pub fixed_dt: bool,
    /// Which screen to open on.
    pub screen: Option<String>,
    /// A playground rather than a fight.
    pub sandbox: bool,
    /// Straight into the fight from a window.
    pub play: bool,
    pub target_hull: String,
    pub seed: u64,
    /// A multiplier on where the carriers stand.
    pub stand: Option<String>,
    /// One scripted shot on the range: the weapon's name and the tick.
    pub fire: Option<(String, u32)>,
    /// `--blast TICK`: one sandbox blast down the camera's own line.
    pub blast: Option<u32>,
    /// A system of The Long Retreat.
    pub retreat: bool,
    /// The skirmish's base building mode.
    pub base: bool,
    /// The run's seed, which is the whole map.
    pub run_seed: u64,
    /// `--job TICK` puts every support ship to work at that tick.
    pub job: Option<u32>,
    /// Which support ships the fleet arrives with. Empty means the run's own.
    pub support: Vec<Role>,
    /// `--jump TICK` has the drive ready at that tick.
    pub jump: Option<u32>,
    /// Go straight on into the next system after a jump.
    pub onward: bool,
}

/// `Args` as the contracts read it.
pub struct ArgsView {
    pub headless: bool,
    pub motes: u32,
    pub hull: Seq<char>,
    pub out: Seq<char>,
    pub frames: u32,
    pub width: u32,
    pub height: u32,
    pub chewers: usize,
    pub reinforce: u32,
    pub rocks: usize,
    pub fighters: u32,
    pub launch_delay: Option<Seq<char>>,
    pub yaw: Option<Seq<char>>,
    pub pitch: Option<Seq<char>>,
    pub watch_craft: bool,
    pub hud: bool,
    pub paused: bool,
    pub delay_set: bool,
    pub zoom: Option<Seq<char>>,
    pub target: Option<Seq<char>>,
    pub explode: u32,
    pub wreck: u32,
    pub view: Seq<char>,
    pub panel: Seq<char>,
    pub build: u32,
    pub build_what: Seq<char>,
    pub cadence: u32,
    pub hives: usize,
    pub order: Option<Seq<char>>,
    pub aim: Option<Seq<char>>,
    pub showcase: bool,
    pub fps: u32,
    pub thickness: Option<Seq<char>>,
    pub fixed_dt: bool,
    pub screen: Option<Seq<char>>,
    pub sandbox: bool,
    pub play: bool,
    pub target_hull: Seq<char>,
    pub seed: u64,
    pub stand: Option<Seq<char>>,
    pub fire: Option<(Seq<char>, u32)>,
    pub blast: Option<u32>,
    pub retreat: bool,
    pub base: bool,
    pub run_seed: u64,
    pub job: Option<u32>,
    pub support: Seq<Role>,
    pub jump: Option<u32>,
    pub onward: bool,
}

pub open spec fn text_view(o: Option<String>) -> Option<Seq<char>> {
    match o {
        Some(s) => Some(s@),
        None => None,
    }
}

impl View for Args {
    type V = ArgsView;

    open spec fn view(&self) -> ArgsView {
        ArgsView {
            headless: self.headless,
            motes: self.motes,
            hull: self.hull@,
            out: self.out@,
            frames: self.frames,
            width: self.width,
            height: self.height,
            chewers: self.chewers,
            reinforce: self.reinforce,
            rocks: self.rocks,
            fighters: self.fighters,
            launch_delay: text_view(self.launch_delay),
            yaw: text_view(self.yaw),
            pitch: text_view(self.pitch),
            watch_craft: self.watch_craft,
            hud: self.hud,
            paused: self.paused,
            delay_set: self.delay_set,
            zoom: text_view(self.zoom),
            target: text_view(self.target),
            explode: self.explode,
            wreck: self.wreck,
            view: self.view@,
            panel: self.panel@,
            build: self.build,
            build_what: self.build_what@,
            cadence: self.cadence,
            hives: self.hives,
            order: text_view(self.order),
            aim: text_view(self.aim),
            showcase: self.showcase,
            fps: self.fps,
            thickness: text_view(self.thickness),
            fixed_dt: self.fixed_dt,
            screen: text_view(self.screen),
            sandbox: self.sandbox,
            play: self.play,
            target_hull: self.target_hull@,
            seed: self.seed,
            stand: text_view(self.stand),
            fire: match self.fire {
                Some((w, t)) => Some((w@, t)),
                None => None,
            },
            blast: self.blast,
            retreat: self.retreat,
            base: self.base,
            run_seed: self.run_seed,
            job: self.job,
            support: self.support@,
            jump: self.jump,
            onward: self.onward,
        }
    }
}

/// Why a command line was refused.
#[derive(Debug, PartialEq)]
pub enum ArgError {
    /// A flag's value is not one it takes; the text is how the flag is used.
    BadValue(String),
    /// `--support` named something that is not a role.
    NoRole(String),
    /// A word that is no flag at all.
    Unknown(String),
}

pub enum ArgErrorView {
    BadValue(Seq<char>),
    NoRole(Seq<char>),
    Unknown(Seq<char>),
}

impl View for ArgError {
    type V = ArgErrorView;

    open spec fn view(&self) -> ArgErrorView {
        match self {
            ArgError::BadValue(s) => ArgErrorView::BadValue(s@),
            ArgError::NoRole(s) => ArgErrorView::NoRole(s@),
            ArgError::Unknown(s) => ArgErrorView::Unknown(s@),
        }
    }
}

/// What a run is when nothing is asked for.
pub open spec fn spec_defaults() -> ArgsView {
    ArgsView {
        headless: false,
        motes: 100_000,
        hull: "terran_frigate"@,
        out: "screenshot.png"@,
        frames: 240,
        width: 1280,
        height: 800,
        chewers: 48,
        reinforce: 0,
        rocks: 14,
        fighters: 12,
        launch_delay: None,
        yaw: None,
        pitch: None,
        watch_craft: false,
        hud: false,
        paused: false,
        delay_set: false,
        zoom: None,
        target: None,
        explode: 0,
        wreck: 0,
        view: Seq::empty(),
        panel: Seq::empty(),
        build: 0,
        build_what: Seq::empty(),
        cadence: 70,
        hives: 10,
        order: None,
        aim: None,
        showcase: false,
        fps: 120,
        thickness: None,
        fixed_dt: false,
        screen: None,
        sandbox: false,
        play: false,
        target_hull: "karisen_frigate"@,
        seed: 4242,
        stand: None,
        fire: None,
        blast: None,
        retreat: false,
        base: false,
        run_seed: 0xB0A7,
        job: None,
        support: Seq::empty(),
        jump: None,
        onward: false,
    }
}

impl Args {
    pub fn defaults() -> (a: Args)
        ensures
            a@ == spec_defaults(),
    {
        Args {
            headless: false,
            motes: 100_000,
            hull: "terran_frigate".to_string(),
            out: "screenshot.png".to_string(),
            frames: 240,
            width: 1280,
            height: 800,
            chewers: 48,
            reinforce: 0,
            rocks: 14,
            fighters: 12,
            launch_delay: None,
            yaw: None,
            pitch: None,
            watch_craft: false,
            hud: false,
            paused: false,
            delay_set: false,
            zoom: None,
            target: None,
            explode: 0,
            wreck: 0,
            view: String::new(),
            panel: String::new(),
            build: 0,
            build_what: String::new(),
            cadence: 70,
            hives: 10,
            order: None,
            aim: None,
            showcase: false,
            fps: 120,
            thickness: None,
            fixed_dt: false,
            screen: None,
            sandbox: false,
            play: false,
            target_hull: "karisen_frigate".to_string(),
            seed: 4242,
            stand: None,
            fire: None,
            blast: None,
            retreat: false,
            base: false,
            run_seed: 0xB0A7,
            job: None,
            support: Vec::new(),
            jump: None,
            onward: false,
        }
    }
}

/// The roles a list of names calls for, or the first name that is none.
pub open spec fn parse_roles(names: Seq<Seq<char>>) -> Result<Seq<Role>, Seq<char>>
    decreases names.len(),
{
    if names.len() == 0 {
        Ok(Seq::empty())
    } else {
        match parse_roles(names.drop_last()) {
            Err(e) => Err(e),
            Ok(rs) => match parse_in(names.last(), role_order()) {
                Some(r) => Ok(rs.push(r)),
                None => Err(names.last()),
            },
        }
    }
}

fn roles_of(names: &Vec<Vec<char>>) -> (r: Result<Vec<Role>, Vec<char>>)
    ensures
        match r {
            Ok(rs) => parse_roles(names@.map_values(|n: Vec<char>| n@)) == Ok::<
                Seq<Role>,
                Seq<char>,
            >(rs@),
            Err(e) => parse_roles(names@.map_values(|n: Vec<char>| n@)) == Err::<
                Seq<Role>,
                Seq<char>,
            >(e@),
        },
{
    let ghost all = names@.map_values(|n: Vec<char>| n@);
    let mut rs: Vec<Role> = Vec::new();
    let mut i: usize = 0;
    while i < names.len()
        invariant
            all == names@.map_values(|n: Vec<char>| n@),
            i <= names@.len(),
            parse_roles(all.take(i as int)) == Ok::<Seq<Role>, Seq<char>>(rs@),
        decreases names.len() - i,
    {
        assert(all.take(i + 1).drop_last() =~= all.take(i as int));
        assert(all.take(i + 1).last() == names@[i as int]@);
        let name = string_of(&names[i]);
        match Role::parse(name.as_str()) {
            Some(r) => {
                rs.push(r);
            },
            None => {
                assert(parse_roles(all.take(i + 1)) is Err);
                proof {
                    lemma_roles_stay_refused(all, i as int + 1);
                }
                assert(all.take(all.len() as int) =~= all);
                return Err(names[i].clone());
            },
        }
        i = i + 1;
    }
    assert(all.take(all.len() as int) =~= all);
    Ok(rs)
}

proof fn lemma_roles_stay_refused(all: Seq<Seq<char>>, k: int)
    requires
        0 <= k <= all.len(),
        parse_roles(all.take(k)) is Err,
    ensures
        parse_roles(all.take(all.len() as int)) == parse_roles(all.take(k)),
    decreases all.len() - k,
{
    if k < all.len() {
        assert(all.take(k + 1).drop_last() =~= all.take(k));
        lemma_roles_stay_refused(all, k + 1);
    }
}


/// `--size WxH`.
pub open spec fn size_step(a: ArgsView, v: Seq<char>) -> Result<(ArgsView, bool), ArgErrorView> {
    match spec_split_once(v, 'x') {
        None => Err(ArgErrorView::BadValue("--size WxH"@)),
        Some((w, h)) => match (
            spec_parse_unsigned(w, u32::MAX as nat),
            spec_parse_unsigned(h, u32::MAX as nat),
        ) {
            (Some(w), Some(h)) => Ok((ArgsView { width: w as u32, height: h as u32, ..a }, true)),
            _ => Err(ArgErrorView::BadValue("--size WxH"@)),
        },
    }
}

/// `--build WHAT,TICK`.
pub open spec fn build_step(a: ArgsView, v: Seq<char>) -> Result<(ArgsView, bool), ArgErrorView> {
    match spec_split_once(v, ',') {
        None => Err(ArgErrorView::BadValue("--build WHAT,TICK"@)),
        Some((what, tick)) => match spec_parse_unsigned(tick, u32::MAX as nat) {
            Some(t) => Ok((ArgsView { build_what: what, build: t as u32, ..a }, true)),
            None => Err(ArgErrorView::BadValue("--build WHAT,TICK"@)),
        },
    }
}

/// `--support ROLE,ROLE,...`, which makes the scene a retreat.
pub open spec fn support_step(a: ArgsView, v: Seq<char>) -> Result<
    (ArgsView, bool),
    ArgErrorView,
> {
    match parse_roles(spec_split(v, ',')) {
        Ok(roles) => Ok((ArgsView { support: roles, retreat: true, ..a }, true)),
        Err(r) => Err(ArgErrorView::NoRole(r)),
    }
}

/// The weapons the range can arm.
pub open spec fn is_weapon(w: Seq<char>) -> bool {
    w == "beam"@ || w == "flak"@ || w == "slug"@ || w == "torpedo"@ || w == "bite"@
}

/// Whether a word names one of the range's weapons.
fn weapon_named(w: &Vec<char>) -> (b: bool)
    ensures
        b == is_weapon(w@),
{
    same_chars(w, &chars_of("beam")) || same_chars(w, &chars_of("flak")) || same_chars(
        w,
        &chars_of("slug"),
    ) || same_chars(w, &chars_of("torpedo")) || same_chars(w, &chars_of("bite"))
}

/// `--fire WEAPON[,TICK]`, at tick forty when no tick is given, which makes
/// the scene a sandbox. The weapon is named first, and a word that names
/// none is refused before the tick is read.
pub open spec fn fire_step(a: ArgsView, v: Seq<char>) -> Result<(ArgsView, bool), ArgErrorView> {
    let (w, at) = match spec_split_once(v, ',') {
        Some((w, at)) => (w, at),
        None => (v, "40"@),
    };
    if !is_weapon(w) {
        Err(ArgErrorView::BadValue("--fire beam|flak|slug|torpedo|bite[,TICK]"@))
    } else {
    match spec_parse_unsigned(at, u32::MAX as nat) {
        Some(t) => Ok((ArgsView { fire: Some((w, t as u32)), sandbox: true, ..a }, true)),
        None => Err(ArgErrorView::BadValue("--fire WEAPON,TICK"@)),
    }
    }
}

fn set_size(a: &mut Args, v: &str) -> (r: Result<bool, ArgError>)
    ensures
        match r {
            Ok(takes) => size_step(old(a)@, v@) == Ok::<(ArgsView, bool), ArgErrorView>(
                (final(a)@, takes),
            ),
            Err(e) => size_step(old(a)@, v@) == Err::<(ArgsView, bool), ArgErrorView>(e@),
        },
{
    match split_once(&chars_of(v), 'x') {
        None => Err(ArgError::BadValue("--size WxH".to_string())),
        Some((w, h)) => {
            let w = parse_unsigned(string_of(&w).as_str(), u32::MAX as u64);
            let h = parse_unsigned(string_of(&h).as_str(), u32::MAX as u64);
            match (w, h) {
                (Some(w), Some(h)) => {
                    a.width = w as u32;
                    a.height = h as u32;
                    Ok(true)
                },
                _ => Err(ArgError::BadValue("--size WxH".to_string())),
            }
        },
    }
}

fn set_build(a: &mut Args, v: &str) -> (r: Result<bool, ArgError>)
    ensures
        match r {
            Ok(takes) => build_step(old(a)@, v@) == Ok::<(ArgsView, bool), ArgErrorView>(
                (final(a)@, takes),
            ),
            Err(e) => build_step(old(a)@, v@) == Err::<(ArgsView, bool), ArgErrorView>(e@),
        },
{
    match split_once(&chars_of(v), ',') {
        None => Err(ArgError::BadValue("--build WHAT,TICK".to_string())),
        Some((what, tick)) => match parse_unsigned(string_of(&tick).as_str(), u32::MAX as u64) {
            Some(t) => {
                a.build_what = string_of(&what);
                a.build = t as u32;
                Ok(true)
            },
            None => Err(ArgError::BadValue("--build WHAT,TICK".to_string())),
        },
    }
}

fn set_support(a: &mut Args, v: &str) -> (r: Result<bool, ArgError>)
    ensures
        match r {
            Ok(takes) => support_step(old(a)@, v@) == Ok::<(ArgsView, bool), ArgErrorView>(
                (final(a)@, takes),
            ),
            Err(e) => support_step(old(a)@, v@) == Err::<(ArgsView, bool), ArgErrorView>(e@),
        },
{
    let names = split_all(&chars_of(v), ',');
    assert(names@.map_values(|n: Vec<char>| n@) =~= spec_split(v@, ','));
    match roles_of(&names) {
        Ok(roles) => {
            a.support = roles;
            a.retreat = true;
            Ok(true)
        },
        Err(r) => Err(ArgError::NoRole(string_of(&r))),
    }
}

fn set_fire(a: &mut Args, v: &str) -> (r: Result<bool, ArgError>)
    ensures
        match r {
            Ok(takes) => fire_step(old(a)@, v@) == Ok::<(ArgsView, bool), ArgErrorView>(
                (final(a)@, takes),
            ),
            Err(e) => fire_step(old(a)@, v@) == Err::<(ArgsView, bool), ArgErrorView>(e@),
        },
{
    let cs = chars_of(v);
    let (w, at) = match split_once(&cs, ',') {
        Some((w, at)) => (w, at),
        None => (cs, chars_of("40")),
    };
    if !weapon_named(&w) {
        return Err(ArgError::BadValue("--fire beam|flak|slug|torpedo|bite[,TICK]".to_string()));
    }
    match parse_unsigned(string_of(&at).as_str(), u32::MAX as u64) {
        Some(t) => {
            a.fire = Some((string_of(&w), t as u32));
            a.sandbox = true;
            Ok(true)
        },
        None => Err(ArgError::BadValue("--fire WEAPON,TICK".to_string())),
    }
}
pub open spec fn step(a: ArgsView, flag: Seq<char>, v: Seq<char>) -> Result<(ArgsView, bool), ArgErrorView> {
    if flag == "--headless"@ {
        Ok((ArgsView { headless: true, ..a }, false))
    } else if flag == "--motes"@ {
        match spec_parse_unsigned(v, u32::MAX as nat) {
            Some(n) => Ok((ArgsView { motes: n as u32, ..a }, true)),
            None => Err(ArgErrorView::BadValue("--motes N"@)),
        }
    } else if flag == "--hull"@ {
        Ok((ArgsView { hull: v, ..a }, true))
    } else if flag == "--out"@ {
        Ok((ArgsView { out: v, ..a }, true))
    } else if flag == "--frames"@ {
        match spec_parse_unsigned(v, u32::MAX as nat) {
            Some(n) => Ok((ArgsView { frames: n as u32, ..a }, true)),
            None => Err(ArgErrorView::BadValue("--frames N"@)),
        }
    } else if flag == "--zoom"@ {
        Ok((ArgsView { zoom: Some(v), ..a }, true))
    } else {
        step_2(a, flag, v)
    }
}

pub open spec fn step_2(a: ArgsView, flag: Seq<char>, v: Seq<char>) -> Result<(ArgsView, bool), ArgErrorView> {
    if flag == "--target"@ {
        Ok((ArgsView { target: Some(v), ..a }, true))
    } else if flag == "--size"@ {
        size_step(a, v)
    } else if flag == "--chewers"@ {
        match spec_parse_unsigned(v, usize::MAX as nat) {
            Some(n) => Ok((ArgsView { chewers: n as usize, ..a }, true)),
            None => Err(ArgErrorView::BadValue("--chewers N"@)),
        }
    } else if flag == "--view"@ {
        Ok((ArgsView { view: v, ..a }, true))
    } else if flag == "--panel"@ {
        Ok((ArgsView { panel: v, ..a }, true))
    } else if flag == "--build"@ {
        build_step(a, v)
    } else {
        step_3(a, flag, v)
    }
}

pub open spec fn step_3(a: ArgsView, flag: Seq<char>, v: Seq<char>) -> Result<(ArgsView, bool), ArgErrorView> {
    if flag == "--wreck"@ {
        match spec_parse_unsigned(v, u32::MAX as nat) {
            Some(n) => Ok((ArgsView { wreck: n as u32, ..a }, true)),
            None => Err(ArgErrorView::BadValue("--wreck TICK"@)),
        }
    } else if flag == "--explode"@ {
        match spec_parse_unsigned(v, u32::MAX as nat) {
            Some(n) => Ok((ArgsView { explode: n as u32, ..a }, true)),
            None => Err(ArgErrorView::BadValue("--explode TICK"@)),
        }
    } else if flag == "--cadence"@ {
        match spec_parse_unsigned(v, u32::MAX as nat) {
            Some(n) => Ok((ArgsView { cadence: n as u32, ..a }, true)),
            None => Err(ArgErrorView::BadValue("--cadence TICKS"@)),
        }
    } else if flag == "--fixed-dt"@ {
        Ok((ArgsView { fixed_dt: true, ..a }, false))
    } else if flag == "--screen"@ {
        Ok((ArgsView { screen: Some(v), hud: true, ..a }, true))
    } else if flag == "--sandbox"@ {
        Ok((ArgsView { sandbox: true, ..a }, false))
    } else {
        step_4(a, flag, v)
    }
}

pub open spec fn step_4(a: ArgsView, flag: Seq<char>, v: Seq<char>) -> Result<(ArgsView, bool), ArgErrorView> {
    if flag == "--retreat"@ {
        Ok((ArgsView { retreat: true, ..a }, false))
    } else if flag == "--base"@ {
        Ok((ArgsView { base: true, ..a }, false))
    } else if flag == "--run-seed"@ {
        match spec_parse_unsigned(v, u64::MAX as nat) {
            Some(n) => Ok((ArgsView { run_seed: n as u64, ..a }, true)),
            None => Err(ArgErrorView::BadValue("--run-seed N"@)),
        }
    } else if flag == "--job"@ {
        match spec_parse_unsigned(v, u32::MAX as nat) {
            Some(n) => Ok((ArgsView { job: Some(n as u32), ..a }, true)),
            None => Err(ArgErrorView::BadValue("--job TICK"@)),
        }
    } else if flag == "--onward"@ {
        Ok((ArgsView { onward: true, retreat: true, ..a }, false))
    } else if flag == "--jump"@ {
        match spec_parse_unsigned(v, u32::MAX as nat) {
            Some(n) => Ok((ArgsView { jump: Some(n as u32), retreat: true, ..a }, true)),
            None => Err(ArgErrorView::BadValue("--jump TICK"@)),
        }
    } else {
        step_5(a, flag, v)
    }
}

pub open spec fn step_5(a: ArgsView, flag: Seq<char>, v: Seq<char>) -> Result<(ArgsView, bool), ArgErrorView> {
    if flag == "--support"@ {
        support_step(a, v)
    } else if flag == "--play"@ {
        Ok((ArgsView { play: true, ..a }, false))
    } else if flag == "--target-hull"@ {
        Ok((ArgsView { target_hull: v, ..a }, true))
    } else if flag == "--seed"@ {
        match spec_parse_unsigned(v, u64::MAX as nat) {
            Some(n) => Ok((ArgsView { seed: n as u64, ..a }, true)),
            None => Err(ArgErrorView::BadValue("--seed N"@)),
        }
    } else if flag == "--stand"@ {
        Ok((ArgsView { stand: Some(v), ..a }, true))
    } else if flag == "--fire"@ {
        fire_step(a, v)
    } else {
        step_6(a, flag, v)
    }
}

pub open spec fn step_6(a: ArgsView, flag: Seq<char>, v: Seq<char>) -> Result<(ArgsView, bool), ArgErrorView> {
    if flag == "--blast"@ {
        match spec_parse_unsigned(v, u32::MAX as nat) {
            Some(n) => Ok((ArgsView { blast: Some(n as u32), sandbox: true, ..a }, true)),
            None => Err(ArgErrorView::BadValue("--blast TICK"@)),
        }
    } else if flag == "--hives"@ {
        match spec_parse_unsigned(v, usize::MAX as nat) {
            Some(n) => Ok((ArgsView { hives: n as usize, ..a }, true)),
            None => Err(ArgErrorView::BadValue("--hives N"@)),
        }
    } else if flag == "--move"@ {
        Ok((ArgsView { order: Some(v), ..a }, true))
    } else if flag == "--aim"@ {
        Ok((ArgsView { aim: Some(v), ..a }, true))
    } else if flag == "--showcase"@ {
        Ok((ArgsView { showcase: true, ..a }, false))
    } else if flag == "--hud"@ {
        Ok((ArgsView { hud: true, ..a }, false))
    } else {
        step_7(a, flag, v)
    }
}

pub open spec fn step_7(a: ArgsView, flag: Seq<char>, v: Seq<char>) -> Result<(ArgsView, bool), ArgErrorView> {
    if flag == "--watch-craft"@ {
        Ok((ArgsView { watch_craft: true, ..a }, false))
    } else if flag == "--yaw"@ {
        Ok((ArgsView { yaw: Some(v), ..a }, true))
    } else if flag == "--pitch"@ {
        Ok((ArgsView { pitch: Some(v), ..a }, true))
    } else if flag == "--paused"@ {
        Ok((ArgsView { hud: true, paused: true, ..a }, false))
    } else if flag == "--reinforce"@ {
        match spec_parse_unsigned(v, u32::MAX as nat) {
            Some(n) => Ok((ArgsView { reinforce: n as u32, ..a }, true)),
            None => Err(ArgErrorView::BadValue("--reinforce N"@)),
        }
    } else if flag == "--rocks"@ {
        match spec_parse_unsigned(v, usize::MAX as nat) {
            Some(n) => Ok((ArgsView { rocks: n as usize, ..a }, true)),
            None => Err(ArgErrorView::BadValue("--rocks N"@)),
        }
    } else {
        step_8(a, flag, v)
    }
}

pub open spec fn step_8(a: ArgsView, flag: Seq<char>, v: Seq<char>) -> Result<(ArgsView, bool), ArgErrorView> {
    if flag == "--launch-delay"@ {
        Ok((ArgsView { launch_delay: Some(v), delay_set: true, ..a }, true))
    } else if flag == "--fighters"@ {
        match spec_parse_unsigned(v, u32::MAX as nat) {
            Some(n) => Ok((ArgsView { fighters: n as u32, ..a }, true)),
            None => Err(ArgErrorView::BadValue("--fighters N"@)),
        }
    } else if flag == "--fps"@ {
        match spec_parse_unsigned(v, u32::MAX as nat) {
            Some(n) => Ok((ArgsView { fps: n as u32, ..a }, true)),
            None => Err(ArgErrorView::BadValue("--fps N, or 0 for no cap"@)),
        }
    } else if flag == "--thickness"@ {
        Ok((ArgsView { thickness: Some(v), ..a }, true))
    } else {
        Err(ArgErrorView::Unknown(flag))
    }
}

} // verus!

verus! {

fn apply(a: &mut Args, flag: &str, v: &str) -> (r: Result<bool, ArgError>)
    ensures
        match r {
            Ok(takes) => step(old(a)@, flag@, v@) == Ok::<(ArgsView, bool), ArgErrorView>((final(a)@, takes)),
            Err(e) => step(old(a)@, flag@, v@) == Err::<(ArgsView, bool), ArgErrorView>(e@),
        },
{
    if same(flag, "--headless") {
        a.headless = true;
        return Ok(false);
    }
    if same(flag, "--motes") {
        match parse_unsigned(v, u32::MAX as u64) {
            Some(n) => {
                a.motes = n as u32;
                return Ok(true);
            },
            None => return Err(ArgError::BadValue("--motes N".to_string())),
        }
    }
    if same(flag, "--hull") {
        a.hull = v.to_string();
        return Ok(true);
    }
    if same(flag, "--out") {
        a.out = v.to_string();
        return Ok(true);
    }
    if same(flag, "--frames") {
        match parse_unsigned(v, u32::MAX as u64) {
            Some(n) => {
                a.frames = n as u32;
                return Ok(true);
            },
            None => return Err(ArgError::BadValue("--frames N".to_string())),
        }
    }
    if same(flag, "--zoom") {
        a.zoom = Some(v.to_string());
        return Ok(true);
    }
    apply_2(a, flag, v)
}

fn apply_2(a: &mut Args, flag: &str, v: &str) -> (r: Result<bool, ArgError>)
    ensures
        match r {
            Ok(takes) => step_2(old(a)@, flag@, v@) == Ok::<(ArgsView, bool), ArgErrorView>((final(a)@, takes)),
            Err(e) => step_2(old(a)@, flag@, v@) == Err::<(ArgsView, bool), ArgErrorView>(e@),
        },
{
    if same(flag, "--target") {
        a.target = Some(v.to_string());
        return Ok(true);
    }
    if same(flag, "--size") {
        return set_size(a, v);
    }
    if same(flag, "--chewers") {
        match parse_unsigned(v, usize::MAX as u64) {
            Some(n) => {
                a.chewers = n as usize;
                return Ok(true);
            },
            None => return Err(ArgError::BadValue("--chewers N".to_string())),
        }
    }
    if same(flag, "--view") {
        a.view = v.to_string();
        return Ok(true);
    }
    if same(flag, "--panel") {
        a.panel = v.to_string();
        return Ok(true);
    }
    if same(flag, "--build") {
        return set_build(a, v);
    }
    apply_3(a, flag, v)
}

fn apply_3(a: &mut Args, flag: &str, v: &str) -> (r: Result<bool, ArgError>)
    ensures
        match r {
            Ok(takes) => step_3(old(a)@, flag@, v@) == Ok::<(ArgsView, bool), ArgErrorView>((final(a)@, takes)),
            Err(e) => step_3(old(a)@, flag@, v@) == Err::<(ArgsView, bool), ArgErrorView>(e@),
        },
{
    if same(flag, "--wreck") {
        match parse_unsigned(v, u32::MAX as u64) {
            Some(n) => {
                a.wreck = n as u32;
                return Ok(true);
            },
            None => return Err(ArgError::BadValue("--wreck TICK".to_string())),
        }
    }
    if same(flag, "--explode") {
        match parse_unsigned(v, u32::MAX as u64) {
            Some(n) => {
                a.explode = n as u32;
                return Ok(true);
            },
            None => return Err(ArgError::BadValue("--explode TICK".to_string())),
        }
    }
    if same(flag, "--cadence") {
        match parse_unsigned(v, u32::MAX as u64) {
            Some(n) => {
                a.cadence = n as u32;
                return Ok(true);
            },
            None => return Err(ArgError::BadValue("--cadence TICKS".to_string())),
        }
    }
    if same(flag, "--fixed-dt") {
        a.fixed_dt = true;
        return Ok(false);
    }
    if same(flag, "--screen") {
        a.screen = Some(v.to_string());
        a.hud = true;
        return Ok(true);
    }
    if same(flag, "--sandbox") {
        a.sandbox = true;
        return Ok(false);
    }
    apply_4(a, flag, v)
}

fn apply_4(a: &mut Args, flag: &str, v: &str) -> (r: Result<bool, ArgError>)
    ensures
        match r {
            Ok(takes) => step_4(old(a)@, flag@, v@) == Ok::<(ArgsView, bool), ArgErrorView>((final(a)@, takes)),
            Err(e) => step_4(old(a)@, flag@, v@) == Err::<(ArgsView, bool), ArgErrorView>(e@),
        },
{
    if same(flag, "--retreat") {
        a.retreat = true;
        return Ok(false);
    }
    if same(flag, "--base") {
        a.base = true;
        return Ok(false);
    }
    if same(flag, "--run-seed") {
        match parse_unsigned(v, u64::MAX as u64) {
            Some(n) => {
                a.run_seed = n as u64;
                return Ok(true);
            },
            None => return Err(ArgError::BadValue("--run-seed N".to_string())),
        }
    }
    if same(flag, "--job") {
        match parse_unsigned(v, u32::MAX as u64) {
            Some(n) => {
                a.job = Some(n as u32);
                return Ok(true);
            },
            None => return Err(ArgError::BadValue("--job TICK".to_string())),
        }
    }
    if same(flag, "--onward") {
        a.onward = true;
        a.retreat = true;
        return Ok(false);
    }
    if same(flag, "--jump") {
        match parse_unsigned(v, u32::MAX as u64) {
            Some(n) => {
                a.jump = Some(n as u32);
                a.retreat = true;
                return Ok(true);
            },
            None => return Err(ArgError::BadValue("--jump TICK".to_string())),
        }
    }
    apply_5(a, flag, v)
}

fn apply_5(a: &mut Args, flag: &str, v: &str) -> (r: Result<bool, ArgError>)
    ensures
        match r {
            Ok(takes) => step_5(old(a)@, flag@, v@) == Ok::<(ArgsView, bool), ArgErrorView>((final(a)@, takes)),
            Err(e) => step_5(old(a)@, flag@, v@) == Err::<(ArgsView, bool), ArgErrorView>(e@),
        },
{
    if same(flag, "--support") {
        return set_support(a, v);
    }
    if same(flag, "--play") {
        a.play = true;
        return Ok(false);
    }
    if same(flag, "--target-hull") {
        a.target_hull = v.to_string();
        return Ok(true);
    }
    if same(flag, "--seed") {
        match parse_unsigned(v, u64::MAX as u64) {
            Some(n) => {
                a.seed = n as u64;
                return Ok(true);
            },
            None => return Err(ArgError::BadValue("--seed N".to_string())),
        }
    }
    if same(flag, "--stand") {
        a.stand = Some(v.to_string());
        return Ok(true);
    }
    if same(flag, "--fire") {
        return set_fire(a, v);
    }
    apply_6(a, flag, v)
}

#[verifier::rlimit(40)]
fn apply_6(a: &mut Args, flag: &str, v: &str) -> (r: Result<bool, ArgError>)
    ensures
        match r {
            Ok(takes) => step_6(old(a)@, flag@, v@) == Ok::<(ArgsView, bool), ArgErrorView>((final(a)@, takes)),
            Err(e) => step_6(old(a)@, flag@, v@) == Err::<(ArgsView, bool), ArgErrorView>(e@),
        },
{
    if same(flag, "--blast") {
        match parse_unsigned(v, u32::MAX as u64) {
            Some(n) => {
                a.blast = Some(n as u32);
                a.sandbox = true;
                return Ok(true);
            },
            None => return Err(ArgError::BadValue("--blast TICK".to_string())),
        }
    }
    if same(flag, "--hives") {
        match parse_unsigned(v, usize::MAX as u64) {
            Some(n) => {
                a.hives = n as usize;
                return Ok(true);
            },
            None => return Err(ArgError::BadValue("--hives N".to_string())),
        }
    }
    if same(flag, "--move") {
        a.order = Some(v.to_string());
        return Ok(true);
    }
    if same(flag, "--aim") {
        a.aim = Some(v.to_string());
        return Ok(true);
    }
    if same(flag, "--showcase") {
        a.showcase = true;
        return Ok(false);
    }
    if same(flag, "--hud") {
        a.hud = true;
        return Ok(false);
    }
    apply_7(a, flag, v)
}

fn apply_7(a: &mut Args, flag: &str, v: &str) -> (r: Result<bool, ArgError>)
    ensures
        match r {
            Ok(takes) => step_7(old(a)@, flag@, v@) == Ok::<(ArgsView, bool), ArgErrorView>((final(a)@, takes)),
            Err(e) => step_7(old(a)@, flag@, v@) == Err::<(ArgsView, bool), ArgErrorView>(e@),
        },
{
    if same(flag, "--watch-craft") {
        a.watch_craft = true;
        return Ok(false);
    }
    if same(flag, "--yaw") {
        a.yaw = Some(v.to_string());
        return Ok(true);
    }
    if same(flag, "--pitch") {
        a.pitch = Some(v.to_string());
        return Ok(true);
    }
    if same(flag, "--paused") {
        a.hud = true;
        a.paused = true;
        return Ok(false);
    }
    if same(flag, "--reinforce") {
        match parse_unsigned(v, u32::MAX as u64) {
            Some(n) => {
                a.reinforce = n as u32;
                return Ok(true);
            },
            None => return Err(ArgError::BadValue("--reinforce N".to_string())),
        }
    }
    if same(flag, "--rocks") {
        match parse_unsigned(v, usize::MAX as u64) {
            Some(n) => {
                a.rocks = n as usize;
                return Ok(true);
            },
            None => return Err(ArgError::BadValue("--rocks N".to_string())),
        }
    }
    apply_8(a, flag, v)
}

fn apply_8(a: &mut Args, flag: &str, v: &str) -> (r: Result<bool, ArgError>)
    ensures
        match r {
            Ok(takes) => step_8(old(a)@, flag@, v@) == Ok::<(ArgsView, bool), ArgErrorView>((final(a)@, takes)),
            Err(e) => step_8(old(a)@, flag@, v@) == Err::<(ArgsView, bool), ArgErrorView>(e@),
        },
{
    if same(flag, "--launch-delay") {
        a.launch_delay = Some(v.to_string());
        a.delay_set = true;
        return Ok(true);
    }
    if same(flag, "--fighters") {
        match parse_unsigned(v, u32::MAX as u64) {
            Some(n) => {
                a.fighters = n as u32;
                return Ok(true);
            },
            None => return Err(ArgError::BadValue("--fighters N".to_string())),
        }
    }
    if same(flag, "--fps") {
        match parse_unsigned(v, u32::MAX as u64) {
            Some(n) => {
                a.fps = n as u32;
                return Ok(true);
            },
            None => return Err(ArgError::BadValue("--fps N, or 0 for no cap".to_string())),
        }
    }
    if same(flag, "--thickness") {
        a.thickness = Some(v.to_string());
        return Ok(true);
    }
    Err(ArgError::Unknown(flag.to_string()))
}

/// What the words from `i` on make of `a`.
pub open spec fn parse_from(a: ArgsView, argv: Seq<Seq<char>>, i: int) -> Result<
    ArgsView,
    ArgErrorView,
>
    decreases argv.len() + 1 - i,
{
    if i < 0 || i >= argv.len() {
        Ok(a)
    } else {
        let v = if i + 1 < argv.len() {
            argv[i + 1]
        } else {
            Seq::empty()
        };
        match step(a, argv[i], v) {
            Err(e) => Err(e),
            Ok((b, takes)) => parse_from(b, argv, if takes {
                i + 2
            } else {
                i + 1
            }),
        }
    }
}

/// What a command line asks for: each flag in turn, over the defaults, a
/// flag that takes a value taking the word after it (or nothing, at the
/// end of the line), and the first word that is refused refusing the whole.
pub open spec fn spec_parse(argv: Seq<Seq<char>>) -> Result<ArgsView, ArgErrorView> {
    parse_from(spec_defaults(), argv, 0)
}

/// The words of a command line, as the contracts read them.
pub open spec fn words(argv: Seq<String>) -> Seq<Seq<char>> {
    argv.map_values(|s: String| s@)
}

/// Read a command line, the program's own name already taken off it.
pub fn parse_args(argv: &Vec<String>) -> (r: Result<Args, ArgError>)
    ensures
        match r {
            Ok(a) => spec_parse(words(argv@)) == Ok::<ArgsView, ArgErrorView>(a@),
            Err(e) => spec_parse(words(argv@)) == Err::<ArgsView, ArgErrorView>(e@),
        },
{
    let ghost w = words(argv@);
    let mut a = Args::defaults();
    let mut i: usize = 0;
    while i < argv.len()
        invariant
            w == words(argv@),
            i <= argv@.len(),
            parse_from(a@, w, i as int) == spec_parse(w),
        decreases argv.len() - i,
    {
        let v: &str = if i + 1 < argv.len() {
            argv[i + 1].as_str()
        } else {
            ""
        };
        proof {
            if i + 1 < argv@.len() {
                assert(w[i + 1] == argv@[i + 1]@);
            } else {
                reveal_strlit("");
                assert(v@ =~= Seq::<char>::empty());
            }
            assert(w[i as int] == argv@[i as int]@);
        }
        let ghost before = a@;
        match apply(&mut a, argv[i].as_str(), v) {
            Err(e) => return Err(e),
            Ok(takes) => {
                let ghost was = i as int;
                if takes && i + 1 < argv.len() {
                    i = i + 2;
                } else if takes {
                    i = argv.len();
                    assert(parse_from(a@, w, was + 2) == parse_from(a@, w, i as int));
                } else {
                    i = i + 1;
                }
            },
        }
    }
    Ok(a)
}

} // verus!
