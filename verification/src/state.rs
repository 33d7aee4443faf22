//! What the app is doing, where it opens, the harness's clock rule, and the
//! verdict on a scene.

use vstd::prelude::*;
use crate::text::same;

verus! {

broadcast use vstd::string::group_string_axioms;

/// The front door, the form, the fight and the verdict.
#[derive(Clone, Copy, PartialEq, Eq, Debug, Structural)]
pub enum AppState {
    /// The first frame, before any screen.
    Boot,
    Menu,
    Setup,
    Playing,
    Result,
    /// Between two systems of a run.
    Chart,
}

/// Where the arguments said to open.
pub struct Initial(pub AppState);

/// The screen the app moves to at the end of this frame, if any: a move asked
/// for is only taken between frames.
pub struct NextState(pub Option<AppState>);

/// Leave the first frame for the screen the arguments asked for. The first
/// screen's own entry runs before startup, so a run that opened straight on
/// the fight would spawn its field before the camera existed: this is asked
/// for once startup has run.
pub fn boot(initial: &Initial, next: &mut NextState)
    ensures
        final(next).0 == Some(initial.0),
{
    next.0 = Some(initial.0);
}

/// Where the arguments say to open: the screen asked for, or the fight for
/// a harness or `--play`, or the menu.
pub open spec fn spec_initial(screen: Option<Seq<char>>, headless: bool, play: bool) -> Result<
    AppState,
    Seq<char>,
> {
    match screen {
        Some(s) => if s == "menu"@ {
            Ok(AppState::Menu)
        } else if s == "setup"@ {
            Ok(AppState::Setup)
        } else if s == "result"@ {
            Ok(AppState::Result)
        } else if s == "map"@ {
            Ok(AppState::Chart)
        } else {
            Err(s)
        },
        None => if headless || play {
            Ok(AppState::Playing)
        } else {
            Ok(AppState::Menu)
        },
    }
}

/// Where the app opens. A screen it does not know is refused, with its name.
pub fn initial_state(screen: Option<&str>, headless: bool, play: bool) -> (r: Result<
    AppState,
    String,
>)
    ensures
        match r {
            Ok(s) => spec_initial(
                match screen {
                    Some(t) => Some(t@),
                    None => None,
                },
                headless,
                play,
            ) == Ok::<AppState, Seq<char>>(s),
            Err(e) => spec_initial(
                match screen {
                    Some(t) => Some(t@),
                    None => None,
                },
                headless,
                play,
            ) == Err::<AppState, Seq<char>>(e@),
        },
{
    match screen {
        Some(s) => {
            if same(s, "menu") {
                Ok(AppState::Menu)
            } else if same(s, "setup") {
                Ok(AppState::Setup)
            } else if same(s, "result") {
                Ok(AppState::Result)
            } else if same(s, "map") {
                Ok(AppState::Chart)
            } else {
                Err(s.to_string())
            }
        },
        None => {
            if headless || play {
                Ok(AppState::Playing)
            } else {
                Ok(AppState::Menu)
            }
        },
    }
}

/// The middle views a run can open on.
#[derive(Clone, Copy, PartialEq, Eq, Debug, Structural)]
pub enum ViewTab {
    Mission,
    Sensors,
    Menu,
}

/// The side panel's tabs.
#[derive(Clone, Copy, PartialEq, Eq, Debug, Structural)]
pub enum PanelTab {
    Build,
    Research,
    Launch,
}

/// `--view`: one of the middle views, or none for anything else.
pub fn view_of(s: &str) -> (v: Option<ViewTab>)
    ensures
        v == (if s@ == "mission"@ {
            Some(ViewTab::Mission)
        } else if s@ == "sensors"@ {
            Some(ViewTab::Sensors)
        } else if s@ == "menu"@ {
            Some(ViewTab::Menu)
        } else {
            None
        }),
{
    if same(s, "mission") {
        Some(ViewTab::Mission)
    } else if same(s, "sensors") {
        Some(ViewTab::Sensors)
    } else if same(s, "menu") {
        Some(ViewTab::Menu)
    } else {
        None
    }
}

/// `--panel`: research or launch, and the build tab for anything else.
pub fn panel_of(s: &str) -> (p: PanelTab)
    ensures
        p == (if s@ == "research"@ {
            PanelTab::Research
        } else if s@ == "launch"@ {
            PanelTab::Launch
        } else {
            PanelTab::Build
        }),
{
    if same(s, "research") {
        PanelTab::Research
    } else if same(s, "launch") {
        PanelTab::Launch
    } else {
        PanelTab::Build
    }
}

/// Sixty a second: the count of whole ticks a scene has run.
#[derive(Clone, Copy, PartialEq, Eq, Debug, Structural)]
pub struct Tick {
    pub tick: u32,
}

impl Tick {
    /// Whether a scripted moment has arrived, once: at or past the mark,
    /// because on a real clock the tick jumps by whatever a frame took, and
    /// never again after the first time it said yes.
    pub fn cue(&self, at: Option<u32>, fired: &mut bool) -> (now: bool)
        ensures
            (now, *final(fired)) == cue_spec(self.tick, at, *old(fired)),
    {
        if *fired {
            return false;
        }
        match at {
            None => false,
            Some(mark) => {
                if self.tick < mark {
                    return false;
                }
                *fired = true;
                true
            },
        }
    }
}

/// Whether a cue fires at `tick`, and whether it has fired by then.
pub open spec fn cue_spec(tick: u32, at: Option<u32>, fired: bool) -> (bool, bool) {
    let now = !fired && match at {
        Some(mark) => tick >= mark,
        None => false,
    };
    (now, fired || now)
}

/// How a scene ended, and what it cost.
#[derive(Clone, Copy, PartialEq, Eq, Debug, Structural)]
pub struct Outcome {
    pub won: bool,
    /// Ticks from the first frame to the verdict.
    pub ticks: u32,
    /// Player hulls that went critical.
    pub ships_lost: u32,
    /// Cells taken off player hulls, the dead ones included.
    pub cells_lost: usize,
    /// Carriers killed of the carriers there were.
    pub hives_killed: usize,
    pub hives: usize,
    /// Player hulls there were, the flagship and its wave.
    pub ships: u32,
    /// The tick the verdict was reached, if it has been.
    pub decided: Option<u32>,
    /// The system was left on the jump drive.
    pub jumped: bool,
    /// Ships that were outside the field when it went.
    pub left: u32,
    /// The jump was out of the last system.
    pub escaped: bool,
}

impl Outcome {
    pub fn fresh() -> (o: Outcome)
        ensures
            o == Outcome::fresh_spec(),
    {
        Outcome {
            won: false,
            ticks: 0,
            ships_lost: 0,
            cells_lost: 0,
            hives_killed: 0,
            hives: 0,
            ships: 0,
            decided: None,
            jumped: false,
            left: 0,
            escaped: false,
        }
    }

    pub open spec fn fresh_spec() -> Outcome {
        Outcome {
            won: false,
            ticks: 0,
            ships_lost: 0,
            cells_lost: 0,
            hives_killed: 0,
            hives: 0,
            ships: 0,
            decided: None,
            jumped: false,
            left: 0,
            escaped: false,
        }
    }
}

/// Four seconds between the verdict and the screen that says it.
pub const VERDICT_GRACE: u32 = 240;

/// What the verdict needs to know of one hull that is not a wreck.
#[derive(Clone, Copy, PartialEq, Eq, Debug, Structural)]
pub struct HullFact {
    /// Its reactor has gone.
    pub dead: bool,
    /// It is a carrier of the swarm's.
    pub hive: bool,
    /// It is the flagship.
    pub flagship: bool,
    /// Cells it has lost.
    pub cells_lost: usize,
}

/// What the scene is, as the verdict reads it.
#[derive(Clone, Copy, PartialEq, Eq, Debug, Structural)]
pub struct Scene {
    pub sandbox: bool,
    pub retreat: bool,
    /// Carriers the scene has.
    pub hives: usize,
    /// Escorts the scene opened with.
    pub reinforce: u32,
}

/// The live hulls of each kind, and the cells the player's have lost.
pub struct Tally {
    pub ships: usize,
    pub flags: usize,
    pub hives: usize,
    pub cells: usize,
}

pub open spec fn live_hives(h: Seq<HullFact>) -> nat
    decreases h.len(),
{
    if h.len() == 0 {
        0
    } else {
        live_hives(h.drop_last()) + if !h.last().dead && h.last().hive {
            1nat
        } else {
            0nat
        }
    }
}

pub open spec fn live_ships(h: Seq<HullFact>) -> nat
    decreases h.len(),
{
    if h.len() == 0 {
        0
    } else {
        live_ships(h.drop_last()) + if !h.last().dead && !h.last().hive {
            1nat
        } else {
            0nat
        }
    }
}

pub open spec fn live_flags(h: Seq<HullFact>) -> nat
    decreases h.len(),
{
    if h.len() == 0 {
        0
    } else {
        live_flags(h.drop_last()) + if !h.last().dead && !h.last().hive && h.last().flagship {
            1nat
        } else {
            0nat
        }
    }
}

pub open spec fn lost_cells(h: Seq<HullFact>) -> nat
    decreases h.len(),
{
    if h.len() == 0 {
        0
    } else {
        lost_cells(h.drop_last()) + if !h.last().dead && !h.last().hive {
            h.last().cells_lost as nat
        } else {
            0nat
        }
    }
}

proof fn lemma_counts_bounded(h: Seq<HullFact>)
    ensures
        live_hives(h) <= h.len(),
        live_ships(h) <= h.len(),
        live_flags(h) <= live_ships(h),
    decreases h.len(),
{
    if h.len() > 0 {
        lemma_counts_bounded(h.drop_last());
    }
}

fn tally(hulls: &Vec<HullFact>) -> (t: Tally)
    requires
        lost_cells(hulls@) <= usize::MAX,
    ensures
        t.ships == live_ships(hulls@),
        t.flags == live_flags(hulls@),
        t.hives == live_hives(hulls@),
        t.cells == lost_cells(hulls@),
{
    let mut t = Tally { ships: 0, flags: 0, hives: 0, cells: 0 };
    let mut i: usize = 0;
    while i < hulls.len()
        invariant
            i <= hulls@.len(),
            lost_cells(hulls@) <= usize::MAX,
            t.ships == live_ships(hulls@.take(i as int)),
            t.flags == live_flags(hulls@.take(i as int)),
            t.hives == live_hives(hulls@.take(i as int)),
            t.cells == lost_cells(hulls@.take(i as int)),
        decreases hulls.len() - i,
    {
        let h = hulls[i];
        assert(hulls@.take(i + 1).drop_last() =~= hulls@.take(i as int));
        proof {
            lemma_counts_bounded(hulls@.take(i + 1));
            lemma_lost_cells_grow(hulls@, i + 1);
        }
        if !h.dead {
            if h.hive {
                t.hives = t.hives + 1;
            } else {
                t.ships = t.ships + 1;
                if h.flagship {
                    t.flags = t.flags + 1;
                }
                t.cells = t.cells + h.cells_lost;
            }
        }
        i = i + 1;
    }
    assert(hulls@.take(hulls@.len() as int) =~= hulls@);
    t
}

proof fn lemma_lost_cells_grow(h: Seq<HullFact>, k: int)
    requires
        0 <= k <= h.len(),
    ensures
        lost_cells(h.take(k)) <= lost_cells(h),
    decreases h.len() - k,
{
    if k < h.len() {
        lemma_lost_cells_grow(h, k + 1);
        assert(h.take(k + 1).drop_last() =~= h.take(k));
    } else {
        assert(h.take(k) =~= h);
    }
}

/// What the verdict system does this frame.
#[derive(Clone, Copy, PartialEq, Eq, Debug, Structural)]
pub enum Judged {
    /// Nothing yet, or nothing to judge.
    Wait,
    /// The verdict is old enough: show the screen that says it.
    Show,
    /// The verdict is reached this frame: won or lost.
    Decided(bool),
}

/// The verdict as the rules give it: every carrier a wreck is a win outside
/// a retreat, and the loss is every ship gone, or in a retreat the flagship,
/// because the drive that carries the fleet out was in it.
pub open spec fn spec_verdict(retreat: bool, hulls: Seq<HullFact>) -> Option<bool> {
    let gone = if retreat {
        live_flags(hulls) == 0
    } else {
        live_ships(hulls) == 0
    };
    if live_hives(hulls) == 0 && !retreat {
        Some(true)
    } else if gone {
        Some(false)
    } else {
        None
    }
}

/// Judge a scene: nothing while a jump has already ended it, in a sandbox,
/// in its first second or with no carriers in it; the result screen once a
/// reached verdict is old enough; otherwise the verdict, written into the
/// outcome the moment it is reached.
pub fn judge(scene: Scene, tick: u32, jumped: bool, hulls: &Vec<HullFact>, outcome: &mut Outcome) -> (j: Judged)
    requires
        lost_cells(hulls@) + old(outcome).cells_lost <= usize::MAX,
        live_hives(hulls@) <= scene.hives,
        scene.reinforce < u32::MAX,
        old(outcome).decided matches Some(at) ==> at + VERDICT_GRACE <= u32::MAX,
    ensures
        (jumped || scene.sandbox || tick < 60 || scene.hives == 0) ==> j == Judged::Wait
            && *final(outcome) == *old(outcome),
        !(jumped || scene.sandbox || tick < 60 || scene.hives == 0) ==> match old(
            outcome,
        ).decided {
            Some(at) => j == (if tick >= at + VERDICT_GRACE {
                Judged::Show
            } else {
                Judged::Wait
            }) && *final(outcome) == *old(outcome),
            None => match spec_verdict(scene.retreat, hulls@) {
                None => j == Judged::Wait && *final(outcome) == *old(outcome),
                Some(won) => j == Judged::Decided(won) && *final(outcome) == (Outcome {
                    won,
                    ticks: tick,
                    cells_lost: (old(outcome).cells_lost + lost_cells(hulls@)) as usize,
                    hives: scene.hives,
                    hives_killed: (scene.hives - live_hives(hulls@)) as usize,
                    ships: (scene.reinforce + 1) as u32,
                    decided: Some(tick),
                    ..*old(outcome)
                }),
            },
        },
{
    if jumped {
        return Judged::Wait;
    }
    if scene.sandbox || tick < 60 || scene.hives == 0 {
        return Judged::Wait;
    }
    if let Some(at) = outcome.decided {
        if tick >= at + VERDICT_GRACE {
            return Judged::Show;
        }
        return Judged::Wait;
    }
    let t = tally(hulls);
    let gone = if scene.retreat {
        t.flags == 0
    } else {
        t.ships == 0
    };
    let won = if t.hives == 0 && !scene.retreat {
        true
    } else if gone {
        false
    } else {
        return Judged::Wait;
    };
    outcome.won = won;
    outcome.ticks = tick;
    outcome.cells_lost = outcome.cells_lost + t.cells;
    outcome.hives = scene.hives;
    outcome.hives_killed = scene.hives - t.hives;
    outcome.ships = scene.reinforce + 1;
    outcome.decided = Some(tick);
    Judged::Decided(won)
}

} // verus!
