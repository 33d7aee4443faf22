//! Who gives orders, and never what a ship does with them: the mode that
//! decides which system reads a press, the band box that picks ships, the
//! move order that sends them, and the stance a ship fires on.

use vstd::prelude::*;
use crate::text::{append_chars, chars_of, decimal, decimal_of, string_of};

verus! {

broadcast use vstd::string::group_string_axioms;

/// Which system owns the mouse this frame. A press is read by exactly one.
#[derive(Clone, Copy, PartialEq, Eq, Debug, Structural)]
pub enum OrderMode {
    Idle,
    /// The left button is down and a band box is open.
    Box,
    /// A move order is being aimed: the disc is up.
    Move,
    /// A weapon is armed on the range: a left click is a shot.
    Range,
    /// The next left press names the ship a selection will guard.
    Guard,
}

/// The left button and what stands round it this frame, as the selection
/// reads them.
#[derive(Clone, Copy, PartialEq, Eq, Debug, Structural)]
pub struct LeftButton {
    /// The pointer is over a button of the interface.
    pub over_ui: bool,
    /// Alt is held, which makes the left button the camera's.
    pub alt: bool,
    /// The button went down this frame.
    pub just_pressed: bool,
    /// The button is down.
    pub held: bool,
    /// The pointer is on the window.
    pub on_window: bool,
    /// The window has the focus.
    pub focused: bool,
    /// Escape went down this frame.
    pub escape: bool,
    /// Shift is held, which adds to the selection rather than replacing it.
    pub shift: bool,
}

/// What the selection does with a frame.
#[derive(Clone, Copy, PartialEq, Eq, Debug, Structural)]
pub enum Selecting {
    /// Nothing: the press is another system's, or there was none.
    Nothing,
    /// Open a band box at the pointer.
    Open,
    /// The box stays open, its far corner at the pointer.
    Drag,
    /// The box is dropped and nothing is selected by it.
    Drop,
    /// The box closes: select what it covers, or what is nearest the pointer
    /// for a click, adding to the selection with shift and replacing it
    /// without.
    Take { add: bool },
}

/// The selection's rule: the mode it leaves behind and what it does.
pub open spec fn spec_select(mode: OrderMode, b: LeftButton) -> (OrderMode, Selecting) {
    match mode {
        OrderMode::Idle => {
            if b.over_ui || b.alt || !b.just_pressed || !b.on_window {
                (OrderMode::Idle, Selecting::Nothing)
            } else {
                (OrderMode::Box, Selecting::Open)
            }
        },
        OrderMode::Box => {
            if !b.focused || b.escape {
                (OrderMode::Idle, Selecting::Drop)
            } else if b.held {
                (OrderMode::Box, Selecting::Drag)
            } else {
                (OrderMode::Idle, Selecting::Take { add: b.shift })
            }
        },
        _ => (mode, Selecting::Nothing),
    }
}

/// Left button picks: a click takes one ship, a drag takes a box of them.
///
/// The box opens on the press and closes on the release, and the release is
/// read off the button, never off the pointer: a drag that ends off the
/// window still closes. A window that loses the focus drops the box outright.
/// While a move order, a shot or a guard is being aimed the left button is
/// theirs, and the selection does not read it.
pub fn select_input(mode: &mut OrderMode, b: &LeftButton) -> (s: Selecting)
    ensures
        (*final(mode), s) == spec_select(*old(mode), *b),
{
    match *mode {
        OrderMode::Idle => {
            if b.over_ui || b.alt || !b.just_pressed || !b.on_window {
                return Selecting::Nothing;
            }
            *mode = OrderMode::Box;
            Selecting::Open
        },
        OrderMode::Box => {
            if !b.focused || b.escape {
                *mode = OrderMode::Idle;
                return Selecting::Drop;
            }
            if b.held {
                return Selecting::Drag;
            }
            *mode = OrderMode::Idle;
            Selecting::Take { add: b.shift }
        },
        _ => Selecting::Nothing,
    }
}

/// A ship on screen as the closing box reads it, nearest the pointer first.
#[derive(Clone, Copy, PartialEq, Eq, Debug, Structural)]
pub struct Seen {
    pub id: u64,
    /// A carrier of the swarm's: not yours, and it cannot be ordered.
    pub hive: bool,
    /// A wreck.
    pub dead: bool,
    /// Inside the box, or, for a click, near enough the pointer to take.
    pub inside: bool,
}

/// Whether a ship on screen can be selected at all.
pub open spec fn selectable(s: Seen) -> bool {
    !s.hive && !s.dead && s.inside
}

/// What a box takes: every selectable ship inside it, in order.
pub open spec fn boxed(seen: Seq<Seen>) -> Seq<u64>
    decreases seen.len(),
{
    if seen.len() == 0 {
        Seq::empty()
    } else if selectable(seen.last()) {
        boxed(seen.drop_last()).push(seen.last().id)
    } else {
        boxed(seen.drop_last())
    }
}

/// What a click takes: the selectable ship nearest the pointer, if any.
pub open spec fn clicked(seen: Seq<Seen>) -> Seq<u64>
    decreases seen.len(),
{
    if seen.len() == 0 {
        Seq::empty()
    } else if selectable(seen[0]) {
        seq![seen[0].id]
    } else {
        clicked(seen.subrange(1, seen.len() as int))
    }
}

/// `x` is a ship on screen that can be selected.
pub open spec fn on_screen_selectable(seen: Seq<Seen>, x: u64) -> bool {
    exists|j: int| 0 <= j < seen.len() && #[trigger] seen[j].id == x && selectable(seen[j])
}

/// Everything a box or a click takes is a ship on screen that can be
/// selected: never a carrier, never a wreck, never one outside the box.
pub proof fn lemma_taken_are_selectable(seen: Seq<Seen>)
    ensures
        forall|k: int|
            0 <= k < boxed(seen).len() ==> on_screen_selectable(seen, #[trigger] boxed(seen)[k]),
        forall|k: int|
            0 <= k < clicked(seen).len() ==> on_screen_selectable(seen, #[trigger] clicked(seen)[k]),
    decreases seen.len(),
{
    if seen.len() > 0 {
        let init = seen.drop_last();
        let rest = seen.subrange(1, seen.len() as int);
        lemma_taken_are_selectable(init);
        lemma_taken_are_selectable(rest);
        assert forall|k: int| 0 <= k < boxed(seen).len() implies on_screen_selectable(
            seen,
            #[trigger] boxed(seen)[k],
        ) by {
            if k < boxed(init).len() {
                assert(boxed(seen)[k] == boxed(init)[k]);
                assert(on_screen_selectable(init, boxed(init)[k]));
                let j = choose|j: int|
                    0 <= j < init.len() && #[trigger] init[j].id == boxed(init)[k] && selectable(
                        init[j],
                    );
                assert(seen[j] == init[j]);
            } else {
                let j = seen.len() - 1;
                assert(seen[j] == seen.last());
                assert(seen[j].id == boxed(seen)[k]);
            }
        }
        assert forall|k: int| 0 <= k < clicked(seen).len() implies on_screen_selectable(
            seen,
            #[trigger] clicked(seen)[k],
        ) by {
            if selectable(seen[0]) {
                assert(clicked(seen) == seq![seen[0].id]);
                assert(seen[0].id == clicked(seen)[k]);
            } else {
                assert(clicked(seen) == clicked(rest));
                assert(on_screen_selectable(rest, clicked(rest)[k]));
                let j = choose|j: int|
                    0 <= j < rest.len() && #[trigger] rest[j].id == clicked(rest)[k] && selectable(
                        rest[j],
                    );
                assert(seen[j + 1] == rest[j]);
                assert(seen[j + 1].id == clicked(seen)[k]);
            }
        }
    }
}

/// A click takes one ship at most.
pub proof fn lemma_click_takes_one(seen: Seq<Seen>)
    ensures
        clicked(seen).len() <= 1,
    decreases seen.len(),
{
    if seen.len() > 0 && !selectable(seen[0]) {
        lemma_click_takes_one(seen.subrange(1, seen.len() as int));
    }
}

/// The ships a closing box selects: the one nearest the pointer for a click,
/// every one inside it for a drag. Carriers and wrecks are never taken.
pub fn take_selection(seen: &Vec<Seen>, click: bool) -> (taken: Vec<u64>)
    ensures
        taken@ == if click {
            clicked(seen@)
        } else {
            boxed(seen@)
        },
{
    let mut taken: Vec<u64> = Vec::new();
    let mut i: usize = 0;
    if click {
        proof {
            assert(seen@.subrange(0, seen@.len() as int) =~= seen@);
        }
        while i < seen.len()
            invariant
                click,
                i <= seen@.len(),
                taken@.len() == 0,
                clicked(seen@.subrange(i as int, seen@.len() as int)) == clicked(seen@),
            decreases seen@.len() - i,
        {
            let s = seen[i];
            proof {
                let tail = seen@.subrange(i as int, seen@.len() as int);
                assert(tail[0] == s);
                assert(tail.subrange(1, tail.len() as int) =~= seen@.subrange(
                    i + 1,
                    seen@.len() as int,
                ));
            }
            if !s.hive && !s.dead && s.inside {
                taken.push(s.id);
                assert(taken@ =~= seq![s.id]);
                return taken;
            }
            i = i + 1;
        }
        assert(seen@.subrange(i as int, seen@.len() as int) =~= Seq::<Seen>::empty());
        return taken;
    }
    while i < seen.len()
        invariant
            i <= seen@.len(),
            taken@ == boxed(seen@.take(i as int)),
        decreases seen@.len() - i,
    {
        let s = seen[i];
        proof {
            assert(seen@.take(i + 1).drop_last() =~= seen@.take(i as int));
        }
        if !s.hive && !s.dead && s.inside {
            taken.push(s.id);
        }
        i = i + 1;
    }
    assert(seen@.take(seen@.len() as int) =~= seen@);
    taken
}

/// What holding a guard comes to for one guarding ship this frame.
#[derive(Clone, Copy, PartialEq, Eq, Debug, Structural)]
pub enum GuardStep {
    /// Its charge is gone or a wreck: it stops guarding, and keeps whatever
    /// order it had rather than flying at the last place the charge stood.
    Drop,
    /// It has no hull to fly this frame: nothing changes.
    Skip,
    /// Fly to its station on the charge.
    Fly,
}

/// Hold every guard: `target` is whether the charge is a wreck, or `None`
/// when it is gone; `own` whether the guarding ship has a hull to fly.
pub fn hold_guard(target: Option<bool>, own: bool) -> (g: GuardStep)
    ensures
        g == match target {
            None => GuardStep::Drop,
            Some(dead) => if dead {
                GuardStep::Drop
            } else if !own {
                GuardStep::Skip
            } else {
                GuardStep::Fly
            },
        },
{
    match target {
        None => GuardStep::Drop,
        Some(dead) => if dead {
            GuardStep::Drop
        } else if !own {
            GuardStep::Skip
        } else {
            GuardStep::Fly
        },
    }
}

/// A move order asked for by a button rather than by the right press: the
/// disc to open, and whether the next commit names the rally point.
#[derive(Clone, Copy, PartialEq, Eq, Debug, Structural)]
pub struct NavAsk {
    pub open: bool,
    pub rally: bool,
}

/// What the move order reads of a frame.
#[derive(Clone, Copy, PartialEq, Eq, Debug, Structural)]
pub struct NavFrame {
    /// Escape went down this frame.
    pub escape: bool,
    /// There is a window and a camera to aim through.
    pub window: bool,
    /// The pointer is over a button of the interface, which owns it.
    pub over_ui: bool,
    /// Alt is held, which makes the buttons the camera's.
    pub alt: bool,
    /// The right button went down this frame.
    pub right: bool,
    /// The left button went down this frame.
    pub left: bool,
    /// How many live ships are selected.
    pub chosen: u32,
    /// This is the first frame of the scene and `--aim` named a point to
    /// open the disc on.
    pub first_aim: bool,
}

/// What the move order tells the player.
#[derive(Clone, Copy, PartialEq, Eq, Debug, Structural)]
pub enum NavAck {
    Cancelled,
    NothingChosen,
    RallySet,
    /// This many ships were given the order.
    UnderWay(u32),
}

/// What the move order did with a frame.
#[derive(Clone, Copy, PartialEq, Eq, Debug, Structural)]
pub struct NavDone {
    /// The disc opened on the selection at the point `--aim` named, on the
    /// scene's first frame, so a headless run can show an order being given.
    pub scripted: bool,
    /// The disc opened on the selection.
    pub opened: bool,
    /// The rally point was set where the disc is aimed.
    pub rally: bool,
    /// Every selected live ship was sent where the disc is aimed.
    pub commit: bool,
    /// The disc is to be aimed at the pointer.
    pub aim: bool,
    pub ack: Option<NavAck>,
}

pub open spec fn nav_done(opened: bool, rally: bool, commit: bool, aim: bool, ack: Option<NavAck>) -> NavDone {
    NavDone { scripted: false, opened, rally, commit, aim, ack }
}

/// The move order's rule, in the order it reads a frame: escape cancels an
/// open order and only cancels; a button's ask opens the disc on the
/// selection; the pointer over the interface is the interface's; a band box,
/// a shot or a guard being aimed owns the buttons; the right press opens the
/// disc in `Idle`; in `Move` the left press commits, to the rally point if
/// that is what was asked, and the right button does nothing. Whatever is
/// left of an open order is aimed at the pointer.
pub open spec fn spec_nav_on(mode: OrderMode, ask: NavAsk, f: NavFrame) -> (OrderMode, NavAsk, NavDone) {
    if f.escape && mode == OrderMode::Move {
        (OrderMode::Idle, ask, nav_done(false, false, false, false, Some(NavAck::Cancelled)))
    } else {
        let asked = ask.open && mode == OrderMode::Idle;
        let m1 = if asked && f.chosen > 0 { OrderMode::Move } else { mode };
        let ack1 = if asked && f.chosen == 0 { Some(NavAck::NothingChosen) } else { None };
        let ask1 = NavAsk { open: false, ..ask };
        if !f.window || f.over_ui {
            (m1, ask1, nav_done(asked && f.chosen > 0, false, false, false, ack1))
        } else {
            match m1 {
                OrderMode::Idle => {
                    if !f.right || f.alt {
                        (m1, ask1, nav_done(false, false, false, false, ack1))
                    } else if f.chosen == 0 {
                        (m1, ask1, nav_done(false, false, false, false, Some(NavAck::NothingChosen)))
                    } else {
                        (OrderMode::Move, ask1, nav_done(true, false, false, true, ack1))
                    }
                },
                OrderMode::Move => {
                    let opened = asked && f.chosen > 0;
                    if f.left && !f.alt {
                        if ask1.rally {
                            (
                                OrderMode::Idle,
                                NavAsk { rally: false, ..ask1 },
                                nav_done(opened, true, false, false, Some(NavAck::RallySet)),
                            )
                        } else {
                            (
                                OrderMode::Idle,
                                ask1,
                                nav_done(opened, false, true, false, Some(NavAck::UnderWay(f.chosen))),
                            )
                        }
                    } else {
                        (m1, ask1, nav_done(opened, false, false, true, ack1))
                    }
                },
                _ => (m1, ask1, nav_done(false, false, false, false, ack1)),
            }
        }
    }
}

/// The move order's frame: on the scene's first frame `--aim` opens the disc
/// on a selection that is not empty, whatever the mode was, and the rest of
/// the frame is read as `spec_nav_on` reads it.
pub open spec fn spec_nav(mode: OrderMode, ask: NavAsk, f: NavFrame) -> (OrderMode, NavAsk, NavDone) {
    let scripted = f.first_aim && f.chosen > 0;
    let m0 = if scripted { OrderMode::Move } else { mode };
    let (m, a, d) = spec_nav_on(m0, ask, f);
    (m, a, NavDone { scripted, ..d })
}

/// Give a move order: Homeworld's own flow, which is a mode rather than a
/// drag. The right button opens the disc on the selection, the pointer aims
/// it, and the left button commits; escape cancels. It answers what to do
/// with the frame, and leaves the mode and the ask as the next frame finds
/// them.
pub fn nav_input(mode: &mut OrderMode, ask: &mut NavAsk, f: &NavFrame) -> (done: NavDone)
    ensures
        (*final(mode), *final(ask), done) == spec_nav(*old(mode), *old(ask), *f),
{
    let scripted = f.first_aim && f.chosen > 0;
    if scripted {
        *mode = OrderMode::Move;
    }
    let done = nav_on(mode, ask, f);
    NavDone { scripted, ..done }
}

/// The move order read once the first frame's `--aim` has been dealt with.
fn nav_on(mode: &mut OrderMode, ask: &mut NavAsk, f: &NavFrame) -> (done: NavDone)
    ensures
        (*final(mode), *final(ask), done) == spec_nav_on(*old(mode), *old(ask), *f),
{
    if f.escape && *mode == OrderMode::Move {
        *mode = OrderMode::Idle;
        return NavDone { scripted: false, opened: false, rally: false, commit: false, aim: false, ack: Some(NavAck::Cancelled) };
    }
    let asked = ask.open && *mode == OrderMode::Idle;
    ask.open = false;
    let mut opened = false;
    let mut ack: Option<NavAck> = None;
    if asked {
        if f.chosen == 0 {
            ack = Some(NavAck::NothingChosen);
        } else {
            *mode = OrderMode::Move;
            opened = true;
        }
    }
    if !f.window || f.over_ui {
        return NavDone { scripted: false, opened, rally: false, commit: false, aim: false, ack };
    }
    match *mode {
        OrderMode::Idle => {
            if !f.right || f.alt {
                return NavDone { scripted: false, opened: false, rally: false, commit: false, aim: false, ack };
            }
            if f.chosen == 0 {
                return NavDone {
                    scripted: false,
                    opened: false,
                    rally: false,
                    commit: false,
                    aim: false,
                    ack: Some(NavAck::NothingChosen),
                };
            }
            *mode = OrderMode::Move;
            NavDone { scripted: false, opened: true, rally: false, commit: false, aim: true, ack }
        },
        OrderMode::Move => {
            if f.left && !f.alt {
                *mode = OrderMode::Idle;
                if ask.rally {
                    ask.rally = false;
                    return NavDone {
                        scripted: false,
                        opened,
                        rally: true,
                        commit: false,
                        aim: false,
                        ack: Some(NavAck::RallySet),
                    };
                }
                return NavDone {
                    scripted: false,
                    opened,
                    rally: false,
                    commit: true,
                    aim: false,
                    ack: Some(NavAck::UnderWay(f.chosen)),
                };
            }
            NavDone { scripted: false, opened, rally: false, commit: false, aim: true, ack }
        },
        _ => NavDone { scripted: false, opened: false, rally: false, commit: false, aim: false, ack },
    }
}

/// What an acknowledgement says.
pub open spec fn spec_ack_text(a: NavAck) -> Seq<char> {
    match a {
        NavAck::Cancelled => "move order cancelled"@,
        NavAck::NothingChosen => "nothing to order: select a ship first"@,
        NavAck::RallySet => "rally point set"@,
        NavAck::UnderWay(n) => decimal(n as nat) + if n == 1 {
            " ship under way"@
        } else {
            " ships under way"@
        },
    }
}

impl NavAck {
    /// The line the player reads.
    pub fn text(&self) -> (s: String)
        ensures
            s@ == spec_ack_text(*self),
    {
        match self {
            NavAck::Cancelled => string_of(&chars_of("move order cancelled")),
            NavAck::NothingChosen => string_of(&chars_of("nothing to order: select a ship first")),
            NavAck::RallySet => string_of(&chars_of("rally point set")),
            NavAck::UnderWay(n) => {
                let mut out = decimal_of(*n as u64);
                if *n == 1 {
                    append_chars(&mut out, &chars_of(" ship under way"));
                } else {
                    append_chars(&mut out, &chars_of(" ships under way"));
                }
                string_of(&out)
            },
        }
    }
}

/// A hull the pointer passes over, nearest the pointer first.
#[derive(Clone, Copy, PartialEq, Eq, Debug, Structural)]
pub struct Hit {
    pub id: u64,
    /// It is a wreck already.
    pub dead: bool,
}

/// What naming a ship to guard came to.
#[derive(Clone, Copy, PartialEq, Eq, Debug, Structural)]
pub enum Guarding {
    /// Not this system's press, or no press at all.
    Nothing,
    /// Escape left the mode without guarding anything.
    Cancelled,
    /// The press named no ship that could be guarded.
    NothingThere,
    /// Every picked ship now guards this one, each on its own station round it.
    Guard { of: u64, ships: usize },
}

/// The first hull passed over that is live and not one of the picked ships:
/// a ship may not guard itself, and the nearest hull to a click is very often
/// the one already selected.
pub open spec fn first_guardable(hits: Seq<Hit>, picked: Seq<u64>) -> Option<u64>
    decreases hits.len(),
{
    if hits.len() == 0 {
        None
    } else if !hits[0].dead && !picked.contains(hits[0].id) {
        Some(hits[0].id)
    } else {
        first_guardable(hits.subrange(1, hits.len() as int), picked)
    }
}

/// Guard's rule: only in `Guard`; escape leaves it; the next left press
/// leaves it too, naming the ship under the pointer if there is one to guard.
pub open spec fn spec_guard(
    mode: OrderMode,
    escape: bool,
    left: bool,
    pointer: bool,
    hits: Seq<Hit>,
    picked: Seq<u64>,
) -> (OrderMode, Guarding) {
    if mode != OrderMode::Guard {
        (mode, Guarding::Nothing)
    } else if escape {
        (OrderMode::Idle, Guarding::Cancelled)
    } else if !left {
        (mode, Guarding::Nothing)
    } else if !pointer {
        (OrderMode::Idle, Guarding::Nothing)
    } else {
        match first_guardable(hits, picked) {
            None => (OrderMode::Idle, Guarding::NothingThere),
            Some(of) => (OrderMode::Idle, Guarding::Guard { of, ships: picked.len() as usize }),
        }
    }
}

fn contains_id(v: &Vec<u64>, x: u64) -> (b: bool)
    ensures
        b == v@.contains(x),
{
    let mut i: usize = 0;
    while i < v.len()
        invariant
            i <= v@.len(),
            forall|j: int| 0 <= j < i ==> v@[j] != x,
        decreases v@.len() - i,
    {
        if v[i] == x {
            assert(v@[i as int] == x);
            return true;
        }
        i = i + 1;
    }
    false
}

/// Name the ship a selection will guard, on the next left press in `Guard`.
/// `hits` are the hulls under the pointer, nearest first; `picked` the ships
/// the selection holds; `pointer` whether there is a pointer to read at all.
pub fn guard_input(
    mode: &mut OrderMode,
    escape: bool,
    left: bool,
    pointer: bool,
    hits: &Vec<Hit>,
    picked: &Vec<u64>,
) -> (g: Guarding)
    ensures
        (*final(mode), g) == spec_guard(*old(mode), escape, left, pointer, hits@, picked@),
{
    if *mode != OrderMode::Guard {
        return Guarding::Nothing;
    }
    if escape {
        *mode = OrderMode::Idle;
        return Guarding::Cancelled;
    }
    if !left {
        return Guarding::Nothing;
    }
    *mode = OrderMode::Idle;
    if !pointer {
        return Guarding::Nothing;
    }
    assert(hits@.subrange(0, hits@.len() as int) =~= hits@);
    let mut i: usize = 0;
    while i < hits.len()
        invariant
            *mode == OrderMode::Idle,
            *old(mode) == OrderMode::Guard,
            !escape && left && pointer,
            i <= hits@.len(),
            first_guardable(hits@.subrange(i as int, hits@.len() as int), picked@)
                == first_guardable(hits@, picked@),
        decreases hits@.len() - i,
    {
        let h = hits[i];
        proof {
            let tail = hits@.subrange(i as int, hits@.len() as int);
            assert(tail[0] == h);
            assert(tail.subrange(1, tail.len() as int) =~= hits@.subrange(
                i + 1,
                hits@.len() as int,
            ));
        }
        if !h.dead && !contains_id(picked, h.id) {
            return Guarding::Guard { of: h.id, ships: picked.len() };
        }
        i = i + 1;
    }
    proof {
        assert(hits@.subrange(i as int, hits@.len() as int) =~= Seq::<Hit>::empty());
    }
    Guarding::NothingThere
}

/// What guarding tells the player, if anything.
pub open spec fn spec_guard_text(g: Guarding) -> Option<Seq<char>> {
    match g {
        Guarding::Nothing => None,
        Guarding::Cancelled => Some("guard cancelled"@),
        Guarding::NothingThere => Some("nothing there to guard"@),
        Guarding::Guard { ships, .. } => Some(decimal(ships as nat) + " guarding"@),
    }
}

impl Guarding {
    /// The line the player reads, if there is one.
    pub fn text(&self) -> (s: Option<String>)
        ensures
            match s {
                Some(t) => spec_guard_text(*self) == Some(t@),
                None => spec_guard_text(*self) is None,
            },
    {
        match self {
            Guarding::Nothing => None,
            Guarding::Cancelled => Some(string_of(&chars_of("guard cancelled"))),
            Guarding::NothingThere => Some(string_of(&chars_of("nothing there to guard"))),
            Guarding::Guard { ships, .. } => {
                let mut out = decimal_of(*ships as u64);
                append_chars(&mut out, &chars_of(" guarding"));
                Some(string_of(&out))
            },
        }
    }
}

/// Whatever the search names is a live hull under the pointer, and not one
/// of the picked ships.
pub proof fn lemma_first_guardable(hits: Seq<Hit>, picked: Seq<u64>)
    ensures
        first_guardable(hits, picked) matches Some(of) ==> !picked.contains(of) && exists|k: int|
            0 <= k < hits.len() && hits[k].id == of && !hits[k].dead,
    decreases hits.len(),
{
    if hits.len() > 0 && !(!hits[0].dead && !picked.contains(hits[0].id)) {
        let rest = hits.subrange(1, hits.len() as int);
        lemma_first_guardable(rest, picked);
        if first_guardable(rest, picked) is Some {
            let k = choose|k: int| 0 <= k < rest.len() && rest[k].id == first_guardable(
                rest,
                picked,
            )->0 && !rest[k].dead;
            assert(hits[k + 1] == rest[k]);
        }
    }
}

/// Which of the three a ship is on.
#[derive(Clone, Copy, PartialEq, Eq, Debug, Structural)]
pub enum Stance {
    Aggressive,
    Defensive,
    Hold,
}

pub open spec fn spec_stance_label(s: Stance) -> Seq<char> {
    match s {
        Stance::Aggressive => "Aggressive"@,
        Stance::Defensive => "Defensive"@,
        Stance::Hold => "Hold fire"@,
    }
}

pub open spec fn spec_next_stance(s: Stance) -> Stance {
    match s {
        Stance::Aggressive => Stance::Defensive,
        Stance::Defensive => Stance::Hold,
        Stance::Hold => Stance::Aggressive,
    }
}

/// The two markers a stance is written as: point defence only, and nothing
/// fires at all.
#[derive(Clone, Copy, PartialEq, Eq, Debug, Structural)]
pub struct Markers {
    pub defensive: bool,
    pub hold_fire: bool,
}

impl Stance {
    pub fn label(self) -> (s: &'static str)
        ensures
            s@ == spec_stance_label(self),
    {
        match self {
            Stance::Aggressive => "Aggressive",
            Stance::Defensive => "Defensive",
            Stance::Hold => "Hold fire",
        }
    }

    /// The next one round, because the cell is one button rather than three.
    pub fn next(self) -> (s: Stance)
        ensures
            s == spec_next_stance(self),
    {
        match self {
            Stance::Aggressive => Stance::Defensive,
            Stance::Defensive => Stance::Hold,
            Stance::Hold => Stance::Aggressive,
        }
    }

    /// Put a hull on this stance, which is the one place the two markers are
    /// written: both come off, and the one this stance wants goes back on.
    pub fn apply(self, ship: &mut Markers)
        ensures
            final(ship).defensive == (self == Stance::Defensive),
            final(ship).hold_fire == (self == Stance::Hold),
    {
        ship.defensive = false;
        ship.hold_fire = false;
        match self {
            Stance::Aggressive => {},
            Stance::Defensive => {
                ship.defensive = true;
            },
            Stance::Hold => {
                ship.hold_fire = true;
            },
        }
    }
}

/// What the fleet is on, for the cell's own label.
pub struct FleetStance(pub Stance);

/// A ship's markers say this stance: point defence only on `Defensive`,
/// nothing fires on `Hold`, and neither on `Aggressive`.
pub open spec fn marks(m: Markers, s: Stance) -> bool {
    m.defensive == (s == Stance::Defensive) && m.hold_fire == (s == Stance::Hold)
}

/// Move the fleet on to its next stance, put every picked ship on it, and say
/// which it is now. `picked` holds the markers of the picked ships, and only
/// theirs: a ship that is not picked is not touched.
pub fn set_stance(fleet: &mut FleetStance, picked: &mut Vec<Markers>) -> (s: Stance)
    ensures
        s == spec_next_stance(old(fleet).0),
        final(fleet).0 == s,
        final(picked)@.len() == old(picked)@.len(),
        forall|i: int| 0 <= i < final(picked)@.len() ==> marks(#[trigger] final(picked)@[i], s),
{
    let want = fleet.0.next();
    fleet.0 = want;
    let n = picked.len();
    let mut i: usize = 0;
    while i < n
        invariant
            n == old(picked)@.len(),
            picked@.len() == n,
            i <= n,
            forall|k: int| 0 <= k < i ==> marks(#[trigger] picked@[k], want),
        decreases n - i,
    {
        let mut m = picked[i];
        want.apply(&mut m);
        picked.set(i, m);
        i = i + 1;
    }
    want
}

} // verus!
