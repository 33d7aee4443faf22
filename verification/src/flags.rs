//! What each flag of the command line asks for, flag by flag: given alone,
//! it sets its own setting and only it, every other setting at its default.

use vstd::prelude::*;
use crate::args::{
    parse_from, parse_roles, spec_defaults, spec_parse, step, step_2, step_3, step_4, step_5,
    step_6, step_7, step_8, is_weapon, ArgErrorView, ArgsView,
};
use crate::text::{spec_parse_unsigned, spec_split, spec_split_once};

verus! {

broadcast use vstd::string::group_string_axioms;

/// `--headless` is matched by its own arm: none of the flags before it is `--headless`.
proof fn lemma_arm_headless(a: ArgsView, v: Seq<char>)
    ensures
        step(a, "--headless"@, v) == step(a, "--headless"@, v),
{
    reveal_strlit("--headless");
}

/// `--headless` alone switches on `headless`, and nothing else.
pub proof fn law_flag_headless()
    ensures
        spec_parse(seq!["--headless"@]) == Ok::<ArgsView, ArgErrorView>((ArgsView { headless: true, ..spec_defaults() })),
{
    lemma_arm_headless(spec_defaults(), Seq::empty());
    reveal_with_fuel(parse_from, 2);
    assert(seq!["--headless"@][0] == "--headless"@);
}

/// `--motes` is matched by its own arm: none of the flags before it is `--motes`.
proof fn lemma_arm_motes(a: ArgsView, v: Seq<char>)
    ensures
        step(a, "--motes"@, v) == step(a, "--motes"@, v),
        "--motes"@ != "--headless"@,
{
    reveal_strlit("--motes");
    reveal_strlit("--headless");
    assert("--motes"@.len() != "--headless"@.len());
}

/// `--motes N` alone, for a numeral N, sets `motes` to N, and nothing else;
/// anything else is refused with the flag's usage.
pub proof fn law_flag_motes(v: Seq<char>)
    ensures
        spec_parse_unsigned(v, u32::MAX as nat) matches Some(n) ==> spec_parse(seq!["--motes"@, v])
            == Ok::<ArgsView, ArgErrorView>((ArgsView { motes: n as u32, ..spec_defaults() })),
        spec_parse_unsigned(v, u32::MAX as nat) is None ==> spec_parse(seq!["--motes"@, v])
            == Err::<ArgsView, ArgErrorView>(ArgErrorView::BadValue("--motes N"@)),
{
    lemma_arm_motes(spec_defaults(), v);
    reveal_with_fuel(parse_from, 2);
    assert(seq!["--motes"@, v][0] == "--motes"@);
    assert(seq!["--motes"@, v][1] == v);
}

/// `--hull` is matched by its own arm: none of the flags before it is `--hull`.
proof fn lemma_arm_hull(a: ArgsView, v: Seq<char>)
    ensures
        step(a, "--hull"@, v) == step(a, "--hull"@, v),
        "--hull"@ != "--headless"@,
        "--hull"@ != "--motes"@,
{
    reveal_strlit("--hull");
    reveal_strlit("--headless");
    assert("--hull"@.len() != "--headless"@.len());
    reveal_strlit("--motes");
    assert("--hull"@.len() != "--motes"@.len());
}

/// `--hull TEXT` alone sets `hull` to the text, and nothing else.
pub proof fn law_flag_hull(v: Seq<char>)
    ensures
        spec_parse(seq!["--hull"@, v]) == Ok::<ArgsView, ArgErrorView>((ArgsView { hull: v, ..spec_defaults() })),
{
    lemma_arm_hull(spec_defaults(), v);
    reveal_with_fuel(parse_from, 2);
    assert(seq!["--hull"@, v][0] == "--hull"@);
    assert(seq!["--hull"@, v][1] == v);
}

/// `--out` is matched by its own arm: none of the flags before it is `--out`.
proof fn lemma_arm_out(a: ArgsView, v: Seq<char>)
    ensures
        step(a, "--out"@, v) == step(a, "--out"@, v),
        "--out"@ != "--headless"@,
        "--out"@ != "--motes"@,
        "--out"@ != "--hull"@,
{
    reveal_strlit("--out");
    reveal_strlit("--headless");
    assert("--out"@.len() != "--headless"@.len());
    reveal_strlit("--motes");
    assert("--out"@.len() != "--motes"@.len());
    reveal_strlit("--hull");
    assert("--out"@.len() != "--hull"@.len());
}

/// `--out TEXT` alone sets `out` to the text, and nothing else.
pub proof fn law_flag_out(v: Seq<char>)
    ensures
        spec_parse(seq!["--out"@, v]) == Ok::<ArgsView, ArgErrorView>((ArgsView { out: v, ..spec_defaults() })),
{
    lemma_arm_out(spec_defaults(), v);
    reveal_with_fuel(parse_from, 2);
    assert(seq!["--out"@, v][0] == "--out"@);
    assert(seq!["--out"@, v][1] == v);
}

/// `--frames` is matched by its own arm: none of the flags before it is `--frames`.
proof fn lemma_arm_frames(a: ArgsView, v: Seq<char>)
    ensures
        step(a, "--frames"@, v) == step(a, "--frames"@, v),
        "--frames"@ != "--headless"@,
        "--frames"@ != "--motes"@,
        "--frames"@ != "--hull"@,
        "--frames"@ != "--out"@,
{
    reveal_strlit("--frames");
    reveal_strlit("--headless");
    assert("--frames"@.len() != "--headless"@.len());
    reveal_strlit("--motes");
    assert("--frames"@.len() != "--motes"@.len());
    reveal_strlit("--hull");
    assert("--frames"@.len() != "--hull"@.len());
    reveal_strlit("--out");
    assert("--frames"@.len() != "--out"@.len());
}

/// `--frames N` alone, for a numeral N, sets `frames` to N, and nothing else;
/// anything else is refused with the flag's usage.
pub proof fn law_flag_frames(v: Seq<char>)
    ensures
        spec_parse_unsigned(v, u32::MAX as nat) matches Some(n) ==> spec_parse(seq!["--frames"@, v])
            == Ok::<ArgsView, ArgErrorView>((ArgsView { frames: n as u32, ..spec_defaults() })),
        spec_parse_unsigned(v, u32::MAX as nat) is None ==> spec_parse(seq!["--frames"@, v])
            == Err::<ArgsView, ArgErrorView>(ArgErrorView::BadValue("--frames N"@)),
{
    lemma_arm_frames(spec_defaults(), v);
    reveal_with_fuel(parse_from, 2);
    assert(seq!["--frames"@, v][0] == "--frames"@);
    assert(seq!["--frames"@, v][1] == v);
}

/// `--zoom` is matched by its own arm: none of the flags before it is `--zoom`.
proof fn lemma_arm_zoom(a: ArgsView, v: Seq<char>)
    ensures
        step(a, "--zoom"@, v) == step(a, "--zoom"@, v),
        "--zoom"@ != "--headless"@,
        "--zoom"@ != "--motes"@,
        "--zoom"@ != "--hull"@,
        "--zoom"@ != "--out"@,
        "--zoom"@ != "--frames"@,
{
    reveal_strlit("--zoom");
    reveal_strlit("--headless");
    assert("--zoom"@.len() != "--headless"@.len());
    reveal_strlit("--motes");
    assert("--zoom"@.len() != "--motes"@.len());
    reveal_strlit("--hull");
    assert("--zoom"@[2] != "--hull"@[2]);
    reveal_strlit("--out");
    assert("--zoom"@.len() != "--out"@.len());
    reveal_strlit("--frames");
    assert("--zoom"@.len() != "--frames"@.len());
}

/// `--zoom TEXT` alone keeps the text as `zoom`, and nothing else.
pub proof fn law_flag_zoom(v: Seq<char>)
    ensures
        spec_parse(seq!["--zoom"@, v]) == Ok::<ArgsView, ArgErrorView>((ArgsView { zoom: Some(v), ..spec_defaults() })),
{
    lemma_arm_zoom(spec_defaults(), v);
    reveal_with_fuel(parse_from, 2);
    assert(seq!["--zoom"@, v][0] == "--zoom"@);
    assert(seq!["--zoom"@, v][1] == v);
}

/// `--target` is matched by its own arm: none of the flags before it is `--target`.
proof fn lemma_arm_target(a: ArgsView, v: Seq<char>)
    ensures
        step(a, "--target"@, v) == step_2(a, "--target"@, v),
{
    reveal_strlit("--target");
    reveal_strlit("--headless");
    assert("--target"@.len() != "--headless"@.len());
    reveal_strlit("--motes");
    assert("--target"@.len() != "--motes"@.len());
    reveal_strlit("--hull");
    assert("--target"@.len() != "--hull"@.len());
    reveal_strlit("--out");
    assert("--target"@.len() != "--out"@.len());
    reveal_strlit("--frames");
    assert("--target"@[2] != "--frames"@[2]);
    reveal_strlit("--zoom");
    assert("--target"@.len() != "--zoom"@.len());
}

/// `--target TEXT` alone keeps the text as `target`, and nothing else.
pub proof fn law_flag_target(v: Seq<char>)
    ensures
        spec_parse(seq!["--target"@, v]) == Ok::<ArgsView, ArgErrorView>((ArgsView { target: Some(v), ..spec_defaults() })),
{
    lemma_arm_target(spec_defaults(), v);
    reveal_with_fuel(parse_from, 2);
    assert(seq!["--target"@, v][0] == "--target"@);
    assert(seq!["--target"@, v][1] == v);
}

/// `--size` is matched by its own arm: none of the flags before it is `--size`.
proof fn lemma_arm_size(a: ArgsView, v: Seq<char>)
    ensures
        step(a, "--size"@, v) == step_2(a, "--size"@, v),
        "--size"@ != "--target"@,
{
    reveal_strlit("--size");
    reveal_strlit("--headless");
    assert("--size"@.len() != "--headless"@.len());
    reveal_strlit("--motes");
    assert("--size"@.len() != "--motes"@.len());
    reveal_strlit("--hull");
    assert("--size"@[2] != "--hull"@[2]);
    reveal_strlit("--out");
    assert("--size"@.len() != "--out"@.len());
    reveal_strlit("--frames");
    assert("--size"@.len() != "--frames"@.len());
    reveal_strlit("--zoom");
    assert("--size"@[2] != "--zoom"@[2]);
    reveal_strlit("--target");
    assert("--size"@.len() != "--target"@.len());
}

/// `--size WxH` alone, for numerals W and H either side of the first `x`,
/// sets the width to W and the height to H, and nothing else; anything else
/// is refused with the flag's usage.
pub proof fn law_flag_size(v: Seq<char>)
    ensures
        spec_split_once(v, 'x') matches Some((w, h)) ==> (spec_parse_unsigned(w, u32::MAX as nat)
            matches Some(wn) ==> (spec_parse_unsigned(h, u32::MAX as nat) matches Some(hn)
            ==> spec_parse(seq!["--size"@, v]) == Ok::<ArgsView, ArgErrorView>((ArgsView { width: wn as u32, height: hn as u32, ..spec_defaults() })))),
        !(spec_split_once(v, 'x') matches Some((w, h)) && spec_parse_unsigned(w, u32::MAX as nat)
            is Some && spec_parse_unsigned(h, u32::MAX as nat) is Some) ==> spec_parse(
            seq!["--size"@, v],
        ) == Err::<ArgsView, ArgErrorView>(ArgErrorView::BadValue("--size WxH"@)),
{
    lemma_arm_size(spec_defaults(), v);
    reveal_with_fuel(parse_from, 2);
    assert(seq!["--size"@, v][0] == "--size"@);
    assert(seq!["--size"@, v][1] == v);
}

/// `--chewers` is matched by its own arm: none of the flags before it is `--chewers`.
proof fn lemma_arm_chewers(a: ArgsView, v: Seq<char>)
    ensures
        step(a, "--chewers"@, v) == step_2(a, "--chewers"@, v),
        "--chewers"@ != "--target"@,
        "--chewers"@ != "--size"@,
{
    reveal_strlit("--chewers");
    reveal_strlit("--headless");
    assert("--chewers"@.len() != "--headless"@.len());
    reveal_strlit("--motes");
    assert("--chewers"@.len() != "--motes"@.len());
    reveal_strlit("--hull");
    assert("--chewers"@.len() != "--hull"@.len());
    reveal_strlit("--out");
    assert("--chewers"@.len() != "--out"@.len());
    reveal_strlit("--frames");
    assert("--chewers"@.len() != "--frames"@.len());
    reveal_strlit("--zoom");
    assert("--chewers"@.len() != "--zoom"@.len());
    reveal_strlit("--target");
    assert("--chewers"@.len() != "--target"@.len());
    reveal_strlit("--size");
    assert("--chewers"@.len() != "--size"@.len());
}

/// `--chewers N` alone, for a numeral N, sets `chewers` to N, and nothing else;
/// anything else is refused with the flag's usage.
pub proof fn law_flag_chewers(v: Seq<char>)
    ensures
        spec_parse_unsigned(v, usize::MAX as nat) matches Some(n) ==> spec_parse(seq!["--chewers"@, v])
            == Ok::<ArgsView, ArgErrorView>((ArgsView { chewers: n as usize, ..spec_defaults() })),
        spec_parse_unsigned(v, usize::MAX as nat) is None ==> spec_parse(seq!["--chewers"@, v])
            == Err::<ArgsView, ArgErrorView>(ArgErrorView::BadValue("--chewers N"@)),
{
    lemma_arm_chewers(spec_defaults(), v);
    reveal_with_fuel(parse_from, 2);
    assert(seq!["--chewers"@, v][0] == "--chewers"@);
    assert(seq!["--chewers"@, v][1] == v);
}

/// `--view` is matched by its own arm: none of the flags before it is `--view`.
proof fn lemma_arm_view(a: ArgsView, v: Seq<char>)
    ensures
        step(a, "--view"@, v) == step_2(a, "--view"@, v),
        "--view"@ != "--target"@,
        "--view"@ != "--size"@,
        "--view"@ != "--chewers"@,
{
    reveal_strlit("--view");
    reveal_strlit("--headless");
    assert("--view"@.len() != "--headless"@.len());
    reveal_strlit("--motes");
    assert("--view"@.len() != "--motes"@.len());
    reveal_strlit("--hull");
    assert("--view"@[2] != "--hull"@[2]);
    reveal_strlit("--out");
    assert("--view"@.len() != "--out"@.len());
    reveal_strlit("--frames");
    assert("--view"@.len() != "--frames"@.len());
    reveal_strlit("--zoom");
    assert("--view"@[2] != "--zoom"@[2]);
    reveal_strlit("--target");
    assert("--view"@.len() != "--target"@.len());
    reveal_strlit("--size");
    assert("--view"@[2] != "--size"@[2]);
    reveal_strlit("--chewers");
    assert("--view"@.len() != "--chewers"@.len());
}

/// `--view TEXT` alone sets `view` to the text, and nothing else.
pub proof fn law_flag_view(v: Seq<char>)
    ensures
        spec_parse(seq!["--view"@, v]) == Ok::<ArgsView, ArgErrorView>((ArgsView { view: v, ..spec_defaults() })),
{
    lemma_arm_view(spec_defaults(), v);
    reveal_with_fuel(parse_from, 2);
    assert(seq!["--view"@, v][0] == "--view"@);
    assert(seq!["--view"@, v][1] == v);
}

/// `--panel` is matched by its own arm: none of the flags before it is `--panel`.
proof fn lemma_arm_panel(a: ArgsView, v: Seq<char>)
    ensures
        step(a, "--panel"@, v) == step_2(a, "--panel"@, v),
        "--panel"@ != "--target"@,
        "--panel"@ != "--size"@,
        "--panel"@ != "--chewers"@,
        "--panel"@ != "--view"@,
{
    reveal_strlit("--panel");
    reveal_strlit("--headless");
    assert("--panel"@.len() != "--headless"@.len());
    reveal_strlit("--motes");
    assert("--panel"@[2] != "--motes"@[2]);
    reveal_strlit("--hull");
    assert("--panel"@.len() != "--hull"@.len());
    reveal_strlit("--out");
    assert("--panel"@.len() != "--out"@.len());
    reveal_strlit("--frames");
    assert("--panel"@.len() != "--frames"@.len());
    reveal_strlit("--zoom");
    assert("--panel"@.len() != "--zoom"@.len());
    reveal_strlit("--target");
    assert("--panel"@.len() != "--target"@.len());
    reveal_strlit("--size");
    assert("--panel"@.len() != "--size"@.len());
    reveal_strlit("--chewers");
    assert("--panel"@.len() != "--chewers"@.len());
    reveal_strlit("--view");
    assert("--panel"@.len() != "--view"@.len());
}

/// `--panel TEXT` alone sets `panel` to the text, and nothing else.
pub proof fn law_flag_panel(v: Seq<char>)
    ensures
        spec_parse(seq!["--panel"@, v]) == Ok::<ArgsView, ArgErrorView>((ArgsView { panel: v, ..spec_defaults() })),
{
    lemma_arm_panel(spec_defaults(), v);
    reveal_with_fuel(parse_from, 2);
    assert(seq!["--panel"@, v][0] == "--panel"@);
    assert(seq!["--panel"@, v][1] == v);
}

/// `--build` is matched by its own arm: none of the flags before it is `--build`.
proof fn lemma_arm_build(a: ArgsView, v: Seq<char>)
    ensures
        step(a, "--build"@, v) == step_2(a, "--build"@, v),
        "--build"@ != "--target"@,
        "--build"@ != "--size"@,
        "--build"@ != "--chewers"@,
        "--build"@ != "--view"@,
        "--build"@ != "--panel"@,
{
    reveal_strlit("--build");
    reveal_strlit("--headless");
    assert("--build"@.len() != "--headless"@.len());
    reveal_strlit("--motes");
    assert("--build"@[2] != "--motes"@[2]);
    reveal_strlit("--hull");
    assert("--build"@.len() != "--hull"@.len());
    reveal_strlit("--out");
    assert("--build"@.len() != "--out"@.len());
    reveal_strlit("--frames");
    assert("--build"@.len() != "--frames"@.len());
    reveal_strlit("--zoom");
    assert("--build"@.len() != "--zoom"@.len());
    reveal_strlit("--target");
    assert("--build"@.len() != "--target"@.len());
    reveal_strlit("--size");
    assert("--build"@.len() != "--size"@.len());
    reveal_strlit("--chewers");
    assert("--build"@.len() != "--chewers"@.len());
    reveal_strlit("--view");
    assert("--build"@.len() != "--view"@.len());
    reveal_strlit("--panel");
    assert("--build"@[2] != "--panel"@[2]);
}

/// `--build WHAT,TICK` alone, for a numeral TICK after the first comma, sets
/// what the harness builds and when, and nothing else; anything else is
/// refused with the flag's usage.
pub proof fn law_flag_build(v: Seq<char>)
    ensures
        spec_split_once(v, ',') matches Some((what, tick)) ==> (spec_parse_unsigned(
            tick,
            u32::MAX as nat,
        ) matches Some(t) ==> spec_parse(seq!["--build"@, v])
            == Ok::<ArgsView, ArgErrorView>((ArgsView { build_what: what, build: t as u32, ..spec_defaults() }))),
        !(spec_split_once(v, ',') matches Some((what, tick)) && spec_parse_unsigned(
            tick,
            u32::MAX as nat,
        ) is Some) ==> spec_parse(seq!["--build"@, v]) == Err::<ArgsView, ArgErrorView>(
            ArgErrorView::BadValue("--build WHAT,TICK"@),
        ),
{
    lemma_arm_build(spec_defaults(), v);
    reveal_with_fuel(parse_from, 2);
    assert(seq!["--build"@, v][0] == "--build"@);
    assert(seq!["--build"@, v][1] == v);
}

/// `--wreck` is matched by its own arm: none of the flags before it is `--wreck`.
proof fn lemma_arm_wreck(a: ArgsView, v: Seq<char>)
    ensures
        step(a, "--wreck"@, v) == step_3(a, "--wreck"@, v),
{
    reveal_strlit("--wreck");
    reveal_strlit("--headless");
    assert("--wreck"@.len() != "--headless"@.len());
    reveal_strlit("--motes");
    assert("--wreck"@[2] != "--motes"@[2]);
    reveal_strlit("--hull");
    assert("--wreck"@.len() != "--hull"@.len());
    reveal_strlit("--out");
    assert("--wreck"@.len() != "--out"@.len());
    reveal_strlit("--frames");
    assert("--wreck"@.len() != "--frames"@.len());
    reveal_strlit("--zoom");
    assert("--wreck"@.len() != "--zoom"@.len());
    reveal_strlit("--target");
    assert("--wreck"@.len() != "--target"@.len());
    reveal_strlit("--size");
    assert("--wreck"@.len() != "--size"@.len());
    reveal_strlit("--chewers");
    assert("--wreck"@.len() != "--chewers"@.len());
    reveal_strlit("--view");
    assert("--wreck"@.len() != "--view"@.len());
    reveal_strlit("--panel");
    assert("--wreck"@[2] != "--panel"@[2]);
    reveal_strlit("--build");
    assert("--wreck"@[2] != "--build"@[2]);
}

/// `--wreck N` alone, for a numeral N, sets `wreck` to N, and nothing else;
/// anything else is refused with the flag's usage.
pub proof fn law_flag_wreck(v: Seq<char>)
    ensures
        spec_parse_unsigned(v, u32::MAX as nat) matches Some(n) ==> spec_parse(seq!["--wreck"@, v])
            == Ok::<ArgsView, ArgErrorView>((ArgsView { wreck: n as u32, ..spec_defaults() })),
        spec_parse_unsigned(v, u32::MAX as nat) is None ==> spec_parse(seq!["--wreck"@, v])
            == Err::<ArgsView, ArgErrorView>(ArgErrorView::BadValue("--wreck TICK"@)),
{
    lemma_arm_wreck(spec_defaults(), v);
    reveal_with_fuel(parse_from, 2);
    assert(seq!["--wreck"@, v][0] == "--wreck"@);
    assert(seq!["--wreck"@, v][1] == v);
}

/// `--explode` is matched by its own arm: none of the flags before it is `--explode`.
proof fn lemma_arm_explode(a: ArgsView, v: Seq<char>)
    ensures
        step(a, "--explode"@, v) == step_3(a, "--explode"@, v),
        "--explode"@ != "--wreck"@,
{
    reveal_strlit("--explode");
    reveal_strlit("--headless");
    assert("--explode"@.len() != "--headless"@.len());
    reveal_strlit("--motes");
    assert("--explode"@.len() != "--motes"@.len());
    reveal_strlit("--hull");
    assert("--explode"@.len() != "--hull"@.len());
    reveal_strlit("--out");
    assert("--explode"@.len() != "--out"@.len());
    reveal_strlit("--frames");
    assert("--explode"@.len() != "--frames"@.len());
    reveal_strlit("--zoom");
    assert("--explode"@.len() != "--zoom"@.len());
    reveal_strlit("--target");
    assert("--explode"@.len() != "--target"@.len());
    reveal_strlit("--size");
    assert("--explode"@.len() != "--size"@.len());
    reveal_strlit("--chewers");
    assert("--explode"@[2] != "--chewers"@[2]);
    reveal_strlit("--view");
    assert("--explode"@.len() != "--view"@.len());
    reveal_strlit("--panel");
    assert("--explode"@.len() != "--panel"@.len());
    reveal_strlit("--build");
    assert("--explode"@.len() != "--build"@.len());
    reveal_strlit("--wreck");
    assert("--explode"@.len() != "--wreck"@.len());
}

/// `--explode N` alone, for a numeral N, sets `explode` to N, and nothing else;
/// anything else is refused with the flag's usage.
pub proof fn law_flag_explode(v: Seq<char>)
    ensures
        spec_parse_unsigned(v, u32::MAX as nat) matches Some(n) ==> spec_parse(seq!["--explode"@, v])
            == Ok::<ArgsView, ArgErrorView>((ArgsView { explode: n as u32, ..spec_defaults() })),
        spec_parse_unsigned(v, u32::MAX as nat) is None ==> spec_parse(seq!["--explode"@, v])
            == Err::<ArgsView, ArgErrorView>(ArgErrorView::BadValue("--explode TICK"@)),
{
    lemma_arm_explode(spec_defaults(), v);
    reveal_with_fuel(parse_from, 2);
    assert(seq!["--explode"@, v][0] == "--explode"@);
    assert(seq!["--explode"@, v][1] == v);
}

/// `--cadence` is matched by its own arm: none of the flags before it is `--cadence`.
proof fn lemma_arm_cadence(a: ArgsView, v: Seq<char>)
    ensures
        step(a, "--cadence"@, v) == step_3(a, "--cadence"@, v),
        "--cadence"@ != "--wreck"@,
        "--cadence"@ != "--explode"@,
{
    reveal_strlit("--cadence");
    reveal_strlit("--headless");
    assert("--cadence"@.len() != "--headless"@.len());
    reveal_strlit("--motes");
    assert("--cadence"@.len() != "--motes"@.len());
    reveal_strlit("--hull");
    assert("--cadence"@.len() != "--hull"@.len());
    reveal_strlit("--out");
    assert("--cadence"@.len() != "--out"@.len());
    reveal_strlit("--frames");
    assert("--cadence"@.len() != "--frames"@.len());
    reveal_strlit("--zoom");
    assert("--cadence"@.len() != "--zoom"@.len());
    reveal_strlit("--target");
    assert("--cadence"@.len() != "--target"@.len());
    reveal_strlit("--size");
    assert("--cadence"@.len() != "--size"@.len());
    reveal_strlit("--chewers");
    assert("--cadence"@[3] != "--chewers"@[3]);
    reveal_strlit("--view");
    assert("--cadence"@.len() != "--view"@.len());
    reveal_strlit("--panel");
    assert("--cadence"@.len() != "--panel"@.len());
    reveal_strlit("--build");
    assert("--cadence"@.len() != "--build"@.len());
    reveal_strlit("--wreck");
    assert("--cadence"@.len() != "--wreck"@.len());
    reveal_strlit("--explode");
    assert("--cadence"@[2] != "--explode"@[2]);
}

/// `--cadence N` alone, for a numeral N, sets `cadence` to N, and nothing else;
/// anything else is refused with the flag's usage.
pub proof fn law_flag_cadence(v: Seq<char>)
    ensures
        spec_parse_unsigned(v, u32::MAX as nat) matches Some(n) ==> spec_parse(seq!["--cadence"@, v])
            == Ok::<ArgsView, ArgErrorView>((ArgsView { cadence: n as u32, ..spec_defaults() })),
        spec_parse_unsigned(v, u32::MAX as nat) is None ==> spec_parse(seq!["--cadence"@, v])
            == Err::<ArgsView, ArgErrorView>(ArgErrorView::BadValue("--cadence TICKS"@)),
{
    lemma_arm_cadence(spec_defaults(), v);
    reveal_with_fuel(parse_from, 2);
    assert(seq!["--cadence"@, v][0] == "--cadence"@);
    assert(seq!["--cadence"@, v][1] == v);
}

/// `--fixed-dt` is matched by its own arm: none of the flags before it is `--fixed-dt`.
proof fn lemma_arm_fixed_dt(a: ArgsView, v: Seq<char>)
    ensures
        step(a, "--fixed-dt"@, v) == step_3(a, "--fixed-dt"@, v),
        "--fixed-dt"@ != "--wreck"@,
        "--fixed-dt"@ != "--explode"@,
        "--fixed-dt"@ != "--cadence"@,
{
    reveal_strlit("--fixed-dt");
    reveal_strlit("--headless");
    assert("--fixed-dt"@[2] != "--headless"@[2]);
    reveal_strlit("--motes");
    assert("--fixed-dt"@.len() != "--motes"@.len());
    reveal_strlit("--hull");
    assert("--fixed-dt"@.len() != "--hull"@.len());
    reveal_strlit("--out");
    assert("--fixed-dt"@.len() != "--out"@.len());
    reveal_strlit("--frames");
    assert("--fixed-dt"@.len() != "--frames"@.len());
    reveal_strlit("--zoom");
    assert("--fixed-dt"@.len() != "--zoom"@.len());
    reveal_strlit("--target");
    assert("--fixed-dt"@.len() != "--target"@.len());
    reveal_strlit("--size");
    assert("--fixed-dt"@.len() != "--size"@.len());
    reveal_strlit("--chewers");
    assert("--fixed-dt"@.len() != "--chewers"@.len());
    reveal_strlit("--view");
    assert("--fixed-dt"@.len() != "--view"@.len());
    reveal_strlit("--panel");
    assert("--fixed-dt"@.len() != "--panel"@.len());
    reveal_strlit("--build");
    assert("--fixed-dt"@.len() != "--build"@.len());
    reveal_strlit("--wreck");
    assert("--fixed-dt"@.len() != "--wreck"@.len());
    reveal_strlit("--explode");
    assert("--fixed-dt"@.len() != "--explode"@.len());
    reveal_strlit("--cadence");
    assert("--fixed-dt"@.len() != "--cadence"@.len());
}

/// `--fixed-dt` alone switches on `fixed_dt`, and nothing else.
pub proof fn law_flag_fixed_dt()
    ensures
        spec_parse(seq!["--fixed-dt"@]) == Ok::<ArgsView, ArgErrorView>((ArgsView { fixed_dt: true, ..spec_defaults() })),
{
    lemma_arm_fixed_dt(spec_defaults(), Seq::empty());
    reveal_with_fuel(parse_from, 2);
    assert(seq!["--fixed-dt"@][0] == "--fixed-dt"@);
}

/// `--screen` is matched by its own arm: none of the flags before it is `--screen`.
proof fn lemma_arm_screen(a: ArgsView, v: Seq<char>)
    ensures
        step(a, "--screen"@, v) == step_3(a, "--screen"@, v),
        "--screen"@ != "--wreck"@,
        "--screen"@ != "--explode"@,
        "--screen"@ != "--cadence"@,
        "--screen"@ != "--fixed-dt"@,
{
    reveal_strlit("--screen");
    reveal_strlit("--headless");
    assert("--screen"@.len() != "--headless"@.len());
    reveal_strlit("--motes");
    assert("--screen"@.len() != "--motes"@.len());
    reveal_strlit("--hull");
    assert("--screen"@.len() != "--hull"@.len());
    reveal_strlit("--out");
    assert("--screen"@.len() != "--out"@.len());
    reveal_strlit("--frames");
    assert("--screen"@[2] != "--frames"@[2]);
    reveal_strlit("--zoom");
    assert("--screen"@.len() != "--zoom"@.len());
    reveal_strlit("--target");
    assert("--screen"@[2] != "--target"@[2]);
    reveal_strlit("--size");
    assert("--screen"@.len() != "--size"@.len());
    reveal_strlit("--chewers");
    assert("--screen"@.len() != "--chewers"@.len());
    reveal_strlit("--view");
    assert("--screen"@.len() != "--view"@.len());
    reveal_strlit("--panel");
    assert("--screen"@.len() != "--panel"@.len());
    reveal_strlit("--build");
    assert("--screen"@.len() != "--build"@.len());
    reveal_strlit("--wreck");
    assert("--screen"@.len() != "--wreck"@.len());
    reveal_strlit("--explode");
    assert("--screen"@.len() != "--explode"@.len());
    reveal_strlit("--cadence");
    assert("--screen"@.len() != "--cadence"@.len());
    reveal_strlit("--fixed-dt");
    assert("--screen"@.len() != "--fixed-dt"@.len());
}

/// `--screen NAME` alone names the screen to open on and draws the HUD, and nothing else.
pub proof fn law_flag_screen(v: Seq<char>)
    ensures
        spec_parse(seq!["--screen"@, v]) == Ok::<ArgsView, ArgErrorView>((ArgsView { screen: Some(v), hud: true, ..spec_defaults() })),
{
    lemma_arm_screen(spec_defaults(), v);
    reveal_with_fuel(parse_from, 2);
    assert(seq!["--screen"@, v][0] == "--screen"@);
    assert(seq!["--screen"@, v][1] == v);
}

/// `--sandbox` is matched by its own arm: none of the flags before it is `--sandbox`.
proof fn lemma_arm_sandbox(a: ArgsView, v: Seq<char>)
    ensures
        step(a, "--sandbox"@, v) == step_3(a, "--sandbox"@, v),
        "--sandbox"@ != "--wreck"@,
        "--sandbox"@ != "--explode"@,
        "--sandbox"@ != "--cadence"@,
        "--sandbox"@ != "--fixed-dt"@,
        "--sandbox"@ != "--screen"@,
{
    reveal_strlit("--sandbox");
    reveal_strlit("--headless");
    assert("--sandbox"@.len() != "--headless"@.len());
    reveal_strlit("--motes");
    assert("--sandbox"@.len() != "--motes"@.len());
    reveal_strlit("--hull");
    assert("--sandbox"@.len() != "--hull"@.len());
    reveal_strlit("--out");
    assert("--sandbox"@.len() != "--out"@.len());
    reveal_strlit("--frames");
    assert("--sandbox"@.len() != "--frames"@.len());
    reveal_strlit("--zoom");
    assert("--sandbox"@.len() != "--zoom"@.len());
    reveal_strlit("--target");
    assert("--sandbox"@.len() != "--target"@.len());
    reveal_strlit("--size");
    assert("--sandbox"@.len() != "--size"@.len());
    reveal_strlit("--chewers");
    assert("--sandbox"@[2] != "--chewers"@[2]);
    reveal_strlit("--view");
    assert("--sandbox"@.len() != "--view"@.len());
    reveal_strlit("--panel");
    assert("--sandbox"@.len() != "--panel"@.len());
    reveal_strlit("--build");
    assert("--sandbox"@.len() != "--build"@.len());
    reveal_strlit("--wreck");
    assert("--sandbox"@.len() != "--wreck"@.len());
    reveal_strlit("--explode");
    assert("--sandbox"@[2] != "--explode"@[2]);
    reveal_strlit("--cadence");
    assert("--sandbox"@[2] != "--cadence"@[2]);
    reveal_strlit("--fixed-dt");
    assert("--sandbox"@.len() != "--fixed-dt"@.len());
    reveal_strlit("--screen");
    assert("--sandbox"@.len() != "--screen"@.len());
}

/// `--sandbox` alone switches on `sandbox`, and nothing else.
pub proof fn law_flag_sandbox()
    ensures
        spec_parse(seq!["--sandbox"@]) == Ok::<ArgsView, ArgErrorView>((ArgsView { sandbox: true, ..spec_defaults() })),
{
    lemma_arm_sandbox(spec_defaults(), Seq::empty());
    reveal_with_fuel(parse_from, 2);
    assert(seq!["--sandbox"@][0] == "--sandbox"@);
}

/// `--retreat` is matched by its own arm: none of the flags before it is `--retreat`.
proof fn lemma_arm_retreat(a: ArgsView, v: Seq<char>)
    ensures
        step(a, "--retreat"@, v) == step_4(a, "--retreat"@, v),
{
    reveal_strlit("--retreat");
    reveal_strlit("--headless");
    assert("--retreat"@.len() != "--headless"@.len());
    reveal_strlit("--motes");
    assert("--retreat"@.len() != "--motes"@.len());
    reveal_strlit("--hull");
    assert("--retreat"@.len() != "--hull"@.len());
    reveal_strlit("--out");
    assert("--retreat"@.len() != "--out"@.len());
    reveal_strlit("--frames");
    assert("--retreat"@.len() != "--frames"@.len());
    reveal_strlit("--zoom");
    assert("--retreat"@.len() != "--zoom"@.len());
    reveal_strlit("--target");
    assert("--retreat"@.len() != "--target"@.len());
    reveal_strlit("--size");
    assert("--retreat"@.len() != "--size"@.len());
    reveal_strlit("--chewers");
    assert("--retreat"@[2] != "--chewers"@[2]);
    reveal_strlit("--view");
    assert("--retreat"@.len() != "--view"@.len());
    reveal_strlit("--panel");
    assert("--retreat"@.len() != "--panel"@.len());
    reveal_strlit("--build");
    assert("--retreat"@.len() != "--build"@.len());
    reveal_strlit("--wreck");
    assert("--retreat"@.len() != "--wreck"@.len());
    reveal_strlit("--explode");
    assert("--retreat"@[2] != "--explode"@[2]);
    reveal_strlit("--cadence");
    assert("--retreat"@[2] != "--cadence"@[2]);
    reveal_strlit("--fixed-dt");
    assert("--retreat"@.len() != "--fixed-dt"@.len());
    reveal_strlit("--screen");
    assert("--retreat"@.len() != "--screen"@.len());
    reveal_strlit("--sandbox");
    assert("--retreat"@[2] != "--sandbox"@[2]);
}

/// `--retreat` alone switches on `retreat`, and nothing else.
pub proof fn law_flag_retreat()
    ensures
        spec_parse(seq!["--retreat"@]) == Ok::<ArgsView, ArgErrorView>((ArgsView { retreat: true, ..spec_defaults() })),
{
    lemma_arm_retreat(spec_defaults(), Seq::empty());
    reveal_with_fuel(parse_from, 2);
    assert(seq!["--retreat"@][0] == "--retreat"@);
}

/// `--base` is matched by its own arm: none of the flags before it is `--base`.
proof fn lemma_arm_base(a: ArgsView, v: Seq<char>)
    ensures
        step(a, "--base"@, v) == step_4(a, "--base"@, v),
        "--base"@ != "--retreat"@,
{
    reveal_strlit("--base");
    reveal_strlit("--headless");
    assert("--base"@.len() != "--headless"@.len());
    reveal_strlit("--motes");
    assert("--base"@.len() != "--motes"@.len());
    reveal_strlit("--hull");
    assert("--base"@[2] != "--hull"@[2]);
    reveal_strlit("--out");
    assert("--base"@.len() != "--out"@.len());
    reveal_strlit("--frames");
    assert("--base"@.len() != "--frames"@.len());
    reveal_strlit("--zoom");
    assert("--base"@[2] != "--zoom"@[2]);
    reveal_strlit("--target");
    assert("--base"@.len() != "--target"@.len());
    reveal_strlit("--size");
    assert("--base"@[2] != "--size"@[2]);
    reveal_strlit("--chewers");
    assert("--base"@.len() != "--chewers"@.len());
    reveal_strlit("--view");
    assert("--base"@[2] != "--view"@[2]);
    reveal_strlit("--panel");
    assert("--base"@.len() != "--panel"@.len());
    reveal_strlit("--build");
    assert("--base"@.len() != "--build"@.len());
    reveal_strlit("--wreck");
    assert("--base"@.len() != "--wreck"@.len());
    reveal_strlit("--explode");
    assert("--base"@.len() != "--explode"@.len());
    reveal_strlit("--cadence");
    assert("--base"@.len() != "--cadence"@.len());
    reveal_strlit("--fixed-dt");
    assert("--base"@.len() != "--fixed-dt"@.len());
    reveal_strlit("--screen");
    assert("--base"@.len() != "--screen"@.len());
    reveal_strlit("--sandbox");
    assert("--base"@.len() != "--sandbox"@.len());
    reveal_strlit("--retreat");
    assert("--base"@.len() != "--retreat"@.len());
}

/// `--base` alone switches on `base`, and nothing else.
pub proof fn law_flag_base()
    ensures
        spec_parse(seq!["--base"@]) == Ok::<ArgsView, ArgErrorView>((ArgsView { base: true, ..spec_defaults() })),
{
    lemma_arm_base(spec_defaults(), Seq::empty());
    reveal_with_fuel(parse_from, 2);
    assert(seq!["--base"@][0] == "--base"@);
}

/// `--run-seed` is matched by its own arm: none of the flags before it is `--run-seed`.
proof fn lemma_arm_run_seed(a: ArgsView, v: Seq<char>)
    ensures
        step(a, "--run-seed"@, v) == step_4(a, "--run-seed"@, v),
        "--run-seed"@ != "--retreat"@,
        "--run-seed"@ != "--base"@,
{
    reveal_strlit("--run-seed");
    reveal_strlit("--headless");
    assert("--run-seed"@[2] != "--headless"@[2]);
    reveal_strlit("--motes");
    assert("--run-seed"@.len() != "--motes"@.len());
    reveal_strlit("--hull");
    assert("--run-seed"@.len() != "--hull"@.len());
    reveal_strlit("--out");
    assert("--run-seed"@.len() != "--out"@.len());
    reveal_strlit("--frames");
    assert("--run-seed"@.len() != "--frames"@.len());
    reveal_strlit("--zoom");
    assert("--run-seed"@.len() != "--zoom"@.len());
    reveal_strlit("--target");
    assert("--run-seed"@.len() != "--target"@.len());
    reveal_strlit("--size");
    assert("--run-seed"@.len() != "--size"@.len());
    reveal_strlit("--chewers");
    assert("--run-seed"@.len() != "--chewers"@.len());
    reveal_strlit("--view");
    assert("--run-seed"@.len() != "--view"@.len());
    reveal_strlit("--panel");
    assert("--run-seed"@.len() != "--panel"@.len());
    reveal_strlit("--build");
    assert("--run-seed"@.len() != "--build"@.len());
    reveal_strlit("--wreck");
    assert("--run-seed"@.len() != "--wreck"@.len());
    reveal_strlit("--explode");
    assert("--run-seed"@.len() != "--explode"@.len());
    reveal_strlit("--cadence");
    assert("--run-seed"@.len() != "--cadence"@.len());
    reveal_strlit("--fixed-dt");
    assert("--run-seed"@[2] != "--fixed-dt"@[2]);
    reveal_strlit("--screen");
    assert("--run-seed"@.len() != "--screen"@.len());
    reveal_strlit("--sandbox");
    assert("--run-seed"@.len() != "--sandbox"@.len());
    reveal_strlit("--retreat");
    assert("--run-seed"@.len() != "--retreat"@.len());
    reveal_strlit("--base");
    assert("--run-seed"@.len() != "--base"@.len());
}

/// `--run-seed N` alone, for a numeral N, sets `run_seed` to N, and nothing else;
/// anything else is refused with the flag's usage.
pub proof fn law_flag_run_seed(v: Seq<char>)
    ensures
        spec_parse_unsigned(v, u64::MAX as nat) matches Some(n) ==> spec_parse(seq!["--run-seed"@, v])
            == Ok::<ArgsView, ArgErrorView>((ArgsView { run_seed: n as u64, ..spec_defaults() })),
        spec_parse_unsigned(v, u64::MAX as nat) is None ==> spec_parse(seq!["--run-seed"@, v])
            == Err::<ArgsView, ArgErrorView>(ArgErrorView::BadValue("--run-seed N"@)),
{
    lemma_arm_run_seed(spec_defaults(), v);
    reveal_with_fuel(parse_from, 2);
    assert(seq!["--run-seed"@, v][0] == "--run-seed"@);
    assert(seq!["--run-seed"@, v][1] == v);
}

/// `--job` is matched by its own arm: none of the flags before it is `--job`.
proof fn lemma_arm_job(a: ArgsView, v: Seq<char>)
    ensures
        step(a, "--job"@, v) == step_4(a, "--job"@, v),
        "--job"@ != "--retreat"@,
        "--job"@ != "--base"@,
        "--job"@ != "--run-seed"@,
{
    reveal_strlit("--job");
    reveal_strlit("--headless");
    assert("--job"@.len() != "--headless"@.len());
    reveal_strlit("--motes");
    assert("--job"@.len() != "--motes"@.len());
    reveal_strlit("--hull");
    assert("--job"@.len() != "--hull"@.len());
    reveal_strlit("--out");
    assert("--job"@[2] != "--out"@[2]);
    reveal_strlit("--frames");
    assert("--job"@.len() != "--frames"@.len());
    reveal_strlit("--zoom");
    assert("--job"@.len() != "--zoom"@.len());
    reveal_strlit("--target");
    assert("--job"@.len() != "--target"@.len());
    reveal_strlit("--size");
    assert("--job"@.len() != "--size"@.len());
    reveal_strlit("--chewers");
    assert("--job"@.len() != "--chewers"@.len());
    reveal_strlit("--view");
    assert("--job"@.len() != "--view"@.len());
    reveal_strlit("--panel");
    assert("--job"@.len() != "--panel"@.len());
    reveal_strlit("--build");
    assert("--job"@.len() != "--build"@.len());
    reveal_strlit("--wreck");
    assert("--job"@.len() != "--wreck"@.len());
    reveal_strlit("--explode");
    assert("--job"@.len() != "--explode"@.len());
    reveal_strlit("--cadence");
    assert("--job"@.len() != "--cadence"@.len());
    reveal_strlit("--fixed-dt");
    assert("--job"@.len() != "--fixed-dt"@.len());
    reveal_strlit("--screen");
    assert("--job"@.len() != "--screen"@.len());
    reveal_strlit("--sandbox");
    assert("--job"@.len() != "--sandbox"@.len());
    reveal_strlit("--retreat");
    assert("--job"@.len() != "--retreat"@.len());
    reveal_strlit("--base");
    assert("--job"@.len() != "--base"@.len());
    reveal_strlit("--run-seed");
    assert("--job"@.len() != "--run-seed"@.len());
}

/// `--job N` alone, for a numeral N, sets `job` to N, and nothing else;
/// anything else is refused with the flag's usage.
pub proof fn law_flag_job(v: Seq<char>)
    ensures
        spec_parse_unsigned(v, u32::MAX as nat) matches Some(n) ==> spec_parse(seq!["--job"@, v])
            == Ok::<ArgsView, ArgErrorView>((ArgsView { job: Some(n as u32), ..spec_defaults() })),
        spec_parse_unsigned(v, u32::MAX as nat) is None ==> spec_parse(seq!["--job"@, v])
            == Err::<ArgsView, ArgErrorView>(ArgErrorView::BadValue("--job TICK"@)),
{
    lemma_arm_job(spec_defaults(), v);
    reveal_with_fuel(parse_from, 2);
    assert(seq!["--job"@, v][0] == "--job"@);
    assert(seq!["--job"@, v][1] == v);
}

/// `--onward` is matched by its own arm: none of the flags before it is `--onward`.
proof fn lemma_arm_onward(a: ArgsView, v: Seq<char>)
    ensures
        step(a, "--onward"@, v) == step_4(a, "--onward"@, v),
        "--onward"@ != "--retreat"@,
        "--onward"@ != "--base"@,
        "--onward"@ != "--run-seed"@,
        "--onward"@ != "--job"@,
{
    reveal_strlit("--onward");
    reveal_strlit("--headless");
    assert("--onward"@.len() != "--headless"@.len());
    reveal_strlit("--motes");
    assert("--onward"@.len() != "--motes"@.len());
    reveal_strlit("--hull");
    assert("--onward"@.len() != "--hull"@.len());
    reveal_strlit("--out");
    assert("--onward"@.len() != "--out"@.len());
    reveal_strlit("--frames");
    assert("--onward"@[2] != "--frames"@[2]);
    reveal_strlit("--zoom");
    assert("--onward"@.len() != "--zoom"@.len());
    reveal_strlit("--target");
    assert("--onward"@[2] != "--target"@[2]);
    reveal_strlit("--size");
    assert("--onward"@.len() != "--size"@.len());
    reveal_strlit("--chewers");
    assert("--onward"@.len() != "--chewers"@.len());
    reveal_strlit("--view");
    assert("--onward"@.len() != "--view"@.len());
    reveal_strlit("--panel");
    assert("--onward"@.len() != "--panel"@.len());
    reveal_strlit("--build");
    assert("--onward"@.len() != "--build"@.len());
    reveal_strlit("--wreck");
    assert("--onward"@.len() != "--wreck"@.len());
    reveal_strlit("--explode");
    assert("--onward"@.len() != "--explode"@.len());
    reveal_strlit("--cadence");
    assert("--onward"@.len() != "--cadence"@.len());
    reveal_strlit("--fixed-dt");
    assert("--onward"@.len() != "--fixed-dt"@.len());
    reveal_strlit("--screen");
    assert("--onward"@[2] != "--screen"@[2]);
    reveal_strlit("--sandbox");
    assert("--onward"@.len() != "--sandbox"@.len());
    reveal_strlit("--retreat");
    assert("--onward"@.len() != "--retreat"@.len());
    reveal_strlit("--base");
    assert("--onward"@.len() != "--base"@.len());
    reveal_strlit("--run-seed");
    assert("--onward"@.len() != "--run-seed"@.len());
    reveal_strlit("--job");
    assert("--onward"@.len() != "--job"@.len());
}

/// `--onward` alone switches on `onward`, `retreat`, and nothing else.
pub proof fn law_flag_onward()
    ensures
        spec_parse(seq!["--onward"@]) == Ok::<ArgsView, ArgErrorView>((ArgsView { onward: true, retreat: true, ..spec_defaults() })),
{
    lemma_arm_onward(spec_defaults(), Seq::empty());
    reveal_with_fuel(parse_from, 2);
    assert(seq!["--onward"@][0] == "--onward"@);
}

/// `--jump` is matched by its own arm: none of the flags before it is `--jump`.
proof fn lemma_arm_jump(a: ArgsView, v: Seq<char>)
    ensures
        step(a, "--jump"@, v) == step_4(a, "--jump"@, v),
        "--jump"@ != "--retreat"@,
        "--jump"@ != "--base"@,
        "--jump"@ != "--run-seed"@,
        "--jump"@ != "--job"@,
        "--jump"@ != "--onward"@,
{
    reveal_strlit("--jump");
    reveal_strlit("--headless");
    assert("--jump"@.len() != "--headless"@.len());
    reveal_strlit("--motes");
    assert("--jump"@.len() != "--motes"@.len());
    reveal_strlit("--hull");
    assert("--jump"@[2] != "--hull"@[2]);
    reveal_strlit("--out");
    assert("--jump"@.len() != "--out"@.len());
    reveal_strlit("--frames");
    assert("--jump"@.len() != "--frames"@.len());
    reveal_strlit("--zoom");
    assert("--jump"@[2] != "--zoom"@[2]);
    reveal_strlit("--target");
    assert("--jump"@.len() != "--target"@.len());
    reveal_strlit("--size");
    assert("--jump"@[2] != "--size"@[2]);
    reveal_strlit("--chewers");
    assert("--jump"@.len() != "--chewers"@.len());
    reveal_strlit("--view");
    assert("--jump"@[2] != "--view"@[2]);
    reveal_strlit("--panel");
    assert("--jump"@.len() != "--panel"@.len());
    reveal_strlit("--build");
    assert("--jump"@.len() != "--build"@.len());
    reveal_strlit("--wreck");
    assert("--jump"@.len() != "--wreck"@.len());
    reveal_strlit("--explode");
    assert("--jump"@.len() != "--explode"@.len());
    reveal_strlit("--cadence");
    assert("--jump"@.len() != "--cadence"@.len());
    reveal_strlit("--fixed-dt");
    assert("--jump"@.len() != "--fixed-dt"@.len());
    reveal_strlit("--screen");
    assert("--jump"@.len() != "--screen"@.len());
    reveal_strlit("--sandbox");
    assert("--jump"@.len() != "--sandbox"@.len());
    reveal_strlit("--retreat");
    assert("--jump"@.len() != "--retreat"@.len());
    reveal_strlit("--base");
    assert("--jump"@[2] != "--base"@[2]);
    reveal_strlit("--run-seed");
    assert("--jump"@.len() != "--run-seed"@.len());
    reveal_strlit("--job");
    assert("--jump"@.len() != "--job"@.len());
    reveal_strlit("--onward");
    assert("--jump"@.len() != "--onward"@.len());
}

/// `--jump N` alone, for a numeral N, sets `jump` to N and switches on `retreat`, and nothing else;
/// anything else is refused with the flag's usage.
pub proof fn law_flag_jump(v: Seq<char>)
    ensures
        spec_parse_unsigned(v, u32::MAX as nat) matches Some(n) ==> spec_parse(seq!["--jump"@, v])
            == Ok::<ArgsView, ArgErrorView>((ArgsView { jump: Some(n as u32), retreat: true, ..spec_defaults() })),
        spec_parse_unsigned(v, u32::MAX as nat) is None ==> spec_parse(seq!["--jump"@, v])
            == Err::<ArgsView, ArgErrorView>(ArgErrorView::BadValue("--jump TICK"@)),
{
    lemma_arm_jump(spec_defaults(), v);
    reveal_with_fuel(parse_from, 2);
    assert(seq!["--jump"@, v][0] == "--jump"@);
    assert(seq!["--jump"@, v][1] == v);
}

/// `--support` is matched by its own arm: none of the flags before it is `--support`.
proof fn lemma_arm_support(a: ArgsView, v: Seq<char>)
    ensures
        step(a, "--support"@, v) == step_5(a, "--support"@, v),
{
    reveal_strlit("--support");
    reveal_strlit("--headless");
    assert("--support"@.len() != "--headless"@.len());
    reveal_strlit("--motes");
    assert("--support"@.len() != "--motes"@.len());
    reveal_strlit("--hull");
    assert("--support"@.len() != "--hull"@.len());
    reveal_strlit("--out");
    assert("--support"@.len() != "--out"@.len());
    reveal_strlit("--frames");
    assert("--support"@.len() != "--frames"@.len());
    reveal_strlit("--zoom");
    assert("--support"@.len() != "--zoom"@.len());
    reveal_strlit("--target");
    assert("--support"@.len() != "--target"@.len());
    reveal_strlit("--size");
    assert("--support"@.len() != "--size"@.len());
    reveal_strlit("--chewers");
    assert("--support"@[2] != "--chewers"@[2]);
    reveal_strlit("--view");
    assert("--support"@.len() != "--view"@.len());
    reveal_strlit("--panel");
    assert("--support"@.len() != "--panel"@.len());
    reveal_strlit("--build");
    assert("--support"@.len() != "--build"@.len());
    reveal_strlit("--wreck");
    assert("--support"@.len() != "--wreck"@.len());
    reveal_strlit("--explode");
    assert("--support"@[2] != "--explode"@[2]);
    reveal_strlit("--cadence");
    assert("--support"@[2] != "--cadence"@[2]);
    reveal_strlit("--fixed-dt");
    assert("--support"@.len() != "--fixed-dt"@.len());
    reveal_strlit("--screen");
    assert("--support"@.len() != "--screen"@.len());
    reveal_strlit("--sandbox");
    assert("--support"@[3] != "--sandbox"@[3]);
    reveal_strlit("--retreat");
    assert("--support"@[2] != "--retreat"@[2]);
    reveal_strlit("--base");
    assert("--support"@.len() != "--base"@.len());
    reveal_strlit("--run-seed");
    assert("--support"@.len() != "--run-seed"@.len());
    reveal_strlit("--job");
    assert("--support"@.len() != "--job"@.len());
    reveal_strlit("--onward");
    assert("--support"@.len() != "--onward"@.len());
    reveal_strlit("--jump");
    assert("--support"@.len() != "--jump"@.len());
}

/// `--support ROLE,...` alone names the support ships the fleet arrives with
/// and makes the scene a retreat, and nothing else; a word that names no
/// role is refused with that word.
pub proof fn law_flag_support(v: Seq<char>)
    ensures
        parse_roles(spec_split(v, ',')) matches Ok(roles) ==> spec_parse(seq!["--support"@, v])
            == Ok::<ArgsView, ArgErrorView>((ArgsView { support: roles, retreat: true, ..spec_defaults() })),
        parse_roles(spec_split(v, ',')) matches Err(r) ==> spec_parse(seq!["--support"@, v])
            == Err::<ArgsView, ArgErrorView>(ArgErrorView::NoRole(r)),
{
    lemma_arm_support(spec_defaults(), v);
    reveal_with_fuel(parse_from, 2);
    assert(seq!["--support"@, v][0] == "--support"@);
    assert(seq!["--support"@, v][1] == v);
}

/// `--play` is matched by its own arm: none of the flags before it is `--play`.
proof fn lemma_arm_play(a: ArgsView, v: Seq<char>)
    ensures
        step(a, "--play"@, v) == step_5(a, "--play"@, v),
        "--play"@ != "--support"@,
{
    reveal_strlit("--play");
    reveal_strlit("--headless");
    assert("--play"@.len() != "--headless"@.len());
    reveal_strlit("--motes");
    assert("--play"@.len() != "--motes"@.len());
    reveal_strlit("--hull");
    assert("--play"@[2] != "--hull"@[2]);
    reveal_strlit("--out");
    assert("--play"@.len() != "--out"@.len());
    reveal_strlit("--frames");
    assert("--play"@.len() != "--frames"@.len());
    reveal_strlit("--zoom");
    assert("--play"@[2] != "--zoom"@[2]);
    reveal_strlit("--target");
    assert("--play"@.len() != "--target"@.len());
    reveal_strlit("--size");
    assert("--play"@[2] != "--size"@[2]);
    reveal_strlit("--chewers");
    assert("--play"@.len() != "--chewers"@.len());
    reveal_strlit("--view");
    assert("--play"@[2] != "--view"@[2]);
    reveal_strlit("--panel");
    assert("--play"@.len() != "--panel"@.len());
    reveal_strlit("--build");
    assert("--play"@.len() != "--build"@.len());
    reveal_strlit("--wreck");
    assert("--play"@.len() != "--wreck"@.len());
    reveal_strlit("--explode");
    assert("--play"@.len() != "--explode"@.len());
    reveal_strlit("--cadence");
    assert("--play"@.len() != "--cadence"@.len());
    reveal_strlit("--fixed-dt");
    assert("--play"@.len() != "--fixed-dt"@.len());
    reveal_strlit("--screen");
    assert("--play"@.len() != "--screen"@.len());
    reveal_strlit("--sandbox");
    assert("--play"@.len() != "--sandbox"@.len());
    reveal_strlit("--retreat");
    assert("--play"@.len() != "--retreat"@.len());
    reveal_strlit("--base");
    assert("--play"@[2] != "--base"@[2]);
    reveal_strlit("--run-seed");
    assert("--play"@.len() != "--run-seed"@.len());
    reveal_strlit("--job");
    assert("--play"@.len() != "--job"@.len());
    reveal_strlit("--onward");
    assert("--play"@.len() != "--onward"@.len());
    reveal_strlit("--jump");
    assert("--play"@[2] != "--jump"@[2]);
    reveal_strlit("--support");
    assert("--play"@.len() != "--support"@.len());
}

/// `--play` alone switches on `play`, and nothing else.
pub proof fn law_flag_play()
    ensures
        spec_parse(seq!["--play"@]) == Ok::<ArgsView, ArgErrorView>((ArgsView { play: true, ..spec_defaults() })),
{
    lemma_arm_play(spec_defaults(), Seq::empty());
    reveal_with_fuel(parse_from, 2);
    assert(seq!["--play"@][0] == "--play"@);
}

/// `--target-hull` is matched by its own arm: none of the flags before it is `--target-hull`.
proof fn lemma_arm_target_hull(a: ArgsView, v: Seq<char>)
    ensures
        step(a, "--target-hull"@, v) == step_5(a, "--target-hull"@, v),
        "--target-hull"@ != "--support"@,
        "--target-hull"@ != "--play"@,
{
    reveal_strlit("--target-hull");
    reveal_strlit("--headless");
    assert("--target-hull"@.len() != "--headless"@.len());
    reveal_strlit("--motes");
    assert("--target-hull"@.len() != "--motes"@.len());
    reveal_strlit("--hull");
    assert("--target-hull"@.len() != "--hull"@.len());
    reveal_strlit("--out");
    assert("--target-hull"@.len() != "--out"@.len());
    reveal_strlit("--frames");
    assert("--target-hull"@.len() != "--frames"@.len());
    reveal_strlit("--zoom");
    assert("--target-hull"@.len() != "--zoom"@.len());
    reveal_strlit("--target");
    assert("--target-hull"@.len() != "--target"@.len());
    reveal_strlit("--size");
    assert("--target-hull"@.len() != "--size"@.len());
    reveal_strlit("--chewers");
    assert("--target-hull"@.len() != "--chewers"@.len());
    reveal_strlit("--view");
    assert("--target-hull"@.len() != "--view"@.len());
    reveal_strlit("--panel");
    assert("--target-hull"@.len() != "--panel"@.len());
    reveal_strlit("--build");
    assert("--target-hull"@.len() != "--build"@.len());
    reveal_strlit("--wreck");
    assert("--target-hull"@.len() != "--wreck"@.len());
    reveal_strlit("--explode");
    assert("--target-hull"@.len() != "--explode"@.len());
    reveal_strlit("--cadence");
    assert("--target-hull"@.len() != "--cadence"@.len());
    reveal_strlit("--fixed-dt");
    assert("--target-hull"@.len() != "--fixed-dt"@.len());
    reveal_strlit("--screen");
    assert("--target-hull"@.len() != "--screen"@.len());
    reveal_strlit("--sandbox");
    assert("--target-hull"@.len() != "--sandbox"@.len());
    reveal_strlit("--retreat");
    assert("--target-hull"@.len() != "--retreat"@.len());
    reveal_strlit("--base");
    assert("--target-hull"@.len() != "--base"@.len());
    reveal_strlit("--run-seed");
    assert("--target-hull"@.len() != "--run-seed"@.len());
    reveal_strlit("--job");
    assert("--target-hull"@.len() != "--job"@.len());
    reveal_strlit("--onward");
    assert("--target-hull"@.len() != "--onward"@.len());
    reveal_strlit("--jump");
    assert("--target-hull"@.len() != "--jump"@.len());
    reveal_strlit("--support");
    assert("--target-hull"@.len() != "--support"@.len());
    reveal_strlit("--play");
    assert("--target-hull"@.len() != "--play"@.len());
}

/// `--target-hull TEXT` alone sets `target_hull` to the text, and nothing else.
pub proof fn law_flag_target_hull(v: Seq<char>)
    ensures
        spec_parse(seq!["--target-hull"@, v]) == Ok::<ArgsView, ArgErrorView>((ArgsView { target_hull: v, ..spec_defaults() })),
{
    lemma_arm_target_hull(spec_defaults(), v);
    reveal_with_fuel(parse_from, 2);
    assert(seq!["--target-hull"@, v][0] == "--target-hull"@);
    assert(seq!["--target-hull"@, v][1] == v);
}

/// `--seed` is matched by its own arm: none of the flags before it is `--seed`.
proof fn lemma_arm_seed(a: ArgsView, v: Seq<char>)
    ensures
        step(a, "--seed"@, v) == step_5(a, "--seed"@, v),
        "--seed"@ != "--support"@,
        "--seed"@ != "--play"@,
        "--seed"@ != "--target-hull"@,
{
    reveal_strlit("--seed");
    reveal_strlit("--headless");
    assert("--seed"@.len() != "--headless"@.len());
    reveal_strlit("--motes");
    assert("--seed"@.len() != "--motes"@.len());
    reveal_strlit("--hull");
    assert("--seed"@[2] != "--hull"@[2]);
    reveal_strlit("--out");
    assert("--seed"@.len() != "--out"@.len());
    reveal_strlit("--frames");
    assert("--seed"@.len() != "--frames"@.len());
    reveal_strlit("--zoom");
    assert("--seed"@[2] != "--zoom"@[2]);
    reveal_strlit("--target");
    assert("--seed"@.len() != "--target"@.len());
    reveal_strlit("--size");
    assert("--seed"@[3] != "--size"@[3]);
    reveal_strlit("--chewers");
    assert("--seed"@.len() != "--chewers"@.len());
    reveal_strlit("--view");
    assert("--seed"@[2] != "--view"@[2]);
    reveal_strlit("--panel");
    assert("--seed"@.len() != "--panel"@.len());
    reveal_strlit("--build");
    assert("--seed"@.len() != "--build"@.len());
    reveal_strlit("--wreck");
    assert("--seed"@.len() != "--wreck"@.len());
    reveal_strlit("--explode");
    assert("--seed"@.len() != "--explode"@.len());
    reveal_strlit("--cadence");
    assert("--seed"@.len() != "--cadence"@.len());
    reveal_strlit("--fixed-dt");
    assert("--seed"@.len() != "--fixed-dt"@.len());
    reveal_strlit("--screen");
    assert("--seed"@.len() != "--screen"@.len());
    reveal_strlit("--sandbox");
    assert("--seed"@.len() != "--sandbox"@.len());
    reveal_strlit("--retreat");
    assert("--seed"@.len() != "--retreat"@.len());
    reveal_strlit("--base");
    assert("--seed"@[2] != "--base"@[2]);
    reveal_strlit("--run-seed");
    assert("--seed"@.len() != "--run-seed"@.len());
    reveal_strlit("--job");
    assert("--seed"@.len() != "--job"@.len());
    reveal_strlit("--onward");
    assert("--seed"@.len() != "--onward"@.len());
    reveal_strlit("--jump");
    assert("--seed"@[2] != "--jump"@[2]);
    reveal_strlit("--support");
    assert("--seed"@.len() != "--support"@.len());
    reveal_strlit("--play");
    assert("--seed"@[2] != "--play"@[2]);
    reveal_strlit("--target-hull");
    assert("--seed"@.len() != "--target-hull"@.len());
}

/// `--seed N` alone, for a numeral N, sets `seed` to N, and nothing else;
/// anything else is refused with the flag's usage.
pub proof fn law_flag_seed(v: Seq<char>)
    ensures
        spec_parse_unsigned(v, u64::MAX as nat) matches Some(n) ==> spec_parse(seq!["--seed"@, v])
            == Ok::<ArgsView, ArgErrorView>((ArgsView { seed: n as u64, ..spec_defaults() })),
        spec_parse_unsigned(v, u64::MAX as nat) is None ==> spec_parse(seq!["--seed"@, v])
            == Err::<ArgsView, ArgErrorView>(ArgErrorView::BadValue("--seed N"@)),
{
    lemma_arm_seed(spec_defaults(), v);
    reveal_with_fuel(parse_from, 2);
    assert(seq!["--seed"@, v][0] == "--seed"@);
    assert(seq!["--seed"@, v][1] == v);
}

/// `--stand` is matched by its own arm: none of the flags before it is `--stand`.
proof fn lemma_arm_stand(a: ArgsView, v: Seq<char>)
    ensures
        step(a, "--stand"@, v) == step_5(a, "--stand"@, v),
        "--stand"@ != "--support"@,
        "--stand"@ != "--play"@,
        "--stand"@ != "--target-hull"@,
        "--stand"@ != "--seed"@,
{
    reveal_strlit("--stand");
    reveal_strlit("--headless");
    assert("--stand"@.len() != "--headless"@.len());
    reveal_strlit("--motes");
    assert("--stand"@[2] != "--motes"@[2]);
    reveal_strlit("--hull");
    assert("--stand"@.len() != "--hull"@.len());
    reveal_strlit("--out");
    assert("--stand"@.len() != "--out"@.len());
    reveal_strlit("--frames");
    assert("--stand"@.len() != "--frames"@.len());
    reveal_strlit("--zoom");
    assert("--stand"@.len() != "--zoom"@.len());
    reveal_strlit("--target");
    assert("--stand"@.len() != "--target"@.len());
    reveal_strlit("--size");
    assert("--stand"@.len() != "--size"@.len());
    reveal_strlit("--chewers");
    assert("--stand"@.len() != "--chewers"@.len());
    reveal_strlit("--view");
    assert("--stand"@.len() != "--view"@.len());
    reveal_strlit("--panel");
    assert("--stand"@[2] != "--panel"@[2]);
    reveal_strlit("--build");
    assert("--stand"@[2] != "--build"@[2]);
    reveal_strlit("--wreck");
    assert("--stand"@[2] != "--wreck"@[2]);
    reveal_strlit("--explode");
    assert("--stand"@.len() != "--explode"@.len());
    reveal_strlit("--cadence");
    assert("--stand"@.len() != "--cadence"@.len());
    reveal_strlit("--fixed-dt");
    assert("--stand"@.len() != "--fixed-dt"@.len());
    reveal_strlit("--screen");
    assert("--stand"@.len() != "--screen"@.len());
    reveal_strlit("--sandbox");
    assert("--stand"@.len() != "--sandbox"@.len());
    reveal_strlit("--retreat");
    assert("--stand"@.len() != "--retreat"@.len());
    reveal_strlit("--base");
    assert("--stand"@.len() != "--base"@.len());
    reveal_strlit("--run-seed");
    assert("--stand"@.len() != "--run-seed"@.len());
    reveal_strlit("--job");
    assert("--stand"@.len() != "--job"@.len());
    reveal_strlit("--onward");
    assert("--stand"@.len() != "--onward"@.len());
    reveal_strlit("--jump");
    assert("--stand"@.len() != "--jump"@.len());
    reveal_strlit("--support");
    assert("--stand"@.len() != "--support"@.len());
    reveal_strlit("--play");
    assert("--stand"@.len() != "--play"@.len());
    reveal_strlit("--target-hull");
    assert("--stand"@.len() != "--target-hull"@.len());
    reveal_strlit("--seed");
    assert("--stand"@.len() != "--seed"@.len());
}

/// `--stand TEXT` alone keeps the text as `stand`, and nothing else.
pub proof fn law_flag_stand(v: Seq<char>)
    ensures
        spec_parse(seq!["--stand"@, v]) == Ok::<ArgsView, ArgErrorView>((ArgsView { stand: Some(v), ..spec_defaults() })),
{
    lemma_arm_stand(spec_defaults(), v);
    reveal_with_fuel(parse_from, 2);
    assert(seq!["--stand"@, v][0] == "--stand"@);
    assert(seq!["--stand"@, v][1] == v);
}

/// `--fire` is matched by its own arm: none of the flags before it is `--fire`.
proof fn lemma_arm_fire(a: ArgsView, v: Seq<char>)
    ensures
        step(a, "--fire"@, v) == step_5(a, "--fire"@, v),
        "--fire"@ != "--support"@,
        "--fire"@ != "--play"@,
        "--fire"@ != "--target-hull"@,
        "--fire"@ != "--seed"@,
        "--fire"@ != "--stand"@,
{
    reveal_strlit("--fire");
    reveal_strlit("--headless");
    assert("--fire"@.len() != "--headless"@.len());
    reveal_strlit("--motes");
    assert("--fire"@.len() != "--motes"@.len());
    reveal_strlit("--hull");
    assert("--fire"@[2] != "--hull"@[2]);
    reveal_strlit("--out");
    assert("--fire"@.len() != "--out"@.len());
    reveal_strlit("--frames");
    assert("--fire"@.len() != "--frames"@.len());
    reveal_strlit("--zoom");
    assert("--fire"@[2] != "--zoom"@[2]);
    reveal_strlit("--target");
    assert("--fire"@.len() != "--target"@.len());
    reveal_strlit("--size");
    assert("--fire"@[2] != "--size"@[2]);
    reveal_strlit("--chewers");
    assert("--fire"@.len() != "--chewers"@.len());
    reveal_strlit("--view");
    assert("--fire"@[2] != "--view"@[2]);
    reveal_strlit("--panel");
    assert("--fire"@.len() != "--panel"@.len());
    reveal_strlit("--build");
    assert("--fire"@.len() != "--build"@.len());
    reveal_strlit("--wreck");
    assert("--fire"@.len() != "--wreck"@.len());
    reveal_strlit("--explode");
    assert("--fire"@.len() != "--explode"@.len());
    reveal_strlit("--cadence");
    assert("--fire"@.len() != "--cadence"@.len());
    reveal_strlit("--fixed-dt");
    assert("--fire"@.len() != "--fixed-dt"@.len());
    reveal_strlit("--screen");
    assert("--fire"@.len() != "--screen"@.len());
    reveal_strlit("--sandbox");
    assert("--fire"@.len() != "--sandbox"@.len());
    reveal_strlit("--retreat");
    assert("--fire"@.len() != "--retreat"@.len());
    reveal_strlit("--base");
    assert("--fire"@[2] != "--base"@[2]);
    reveal_strlit("--run-seed");
    assert("--fire"@.len() != "--run-seed"@.len());
    reveal_strlit("--job");
    assert("--fire"@.len() != "--job"@.len());
    reveal_strlit("--onward");
    assert("--fire"@.len() != "--onward"@.len());
    reveal_strlit("--jump");
    assert("--fire"@[2] != "--jump"@[2]);
    reveal_strlit("--support");
    assert("--fire"@.len() != "--support"@.len());
    reveal_strlit("--play");
    assert("--fire"@[2] != "--play"@[2]);
    reveal_strlit("--target-hull");
    assert("--fire"@.len() != "--target-hull"@.len());
    reveal_strlit("--seed");
    assert("--fire"@[2] != "--seed"@[2]);
    reveal_strlit("--stand");
    assert("--fire"@.len() != "--stand"@.len());
}

/// `--fire WEAPON[,TICK]` alone arms one of the range's five weapons for a
/// scripted shot at TICK, or at tick forty, and makes the scene a sandbox,
/// and nothing else; another weapon, or a tick that is no numeral, is
/// refused with the flag's usage.
pub proof fn law_flag_fire(v: Seq<char>)
    ensures
        ({
            let (w, at) = match spec_split_once(v, ',') {
                Some((w, at)) => (w, at),
                None => (v, "40"@),
            };
            &&& !is_weapon(w) ==> spec_parse(seq!["--fire"@, v]) == Err::<ArgsView, ArgErrorView>(
                ArgErrorView::BadValue("--fire beam|flak|slug|torpedo|bite[,TICK]"@),
            )
            &&& is_weapon(w) ==> (spec_parse_unsigned(at, u32::MAX as nat) matches Some(t)
                ==> spec_parse(seq!["--fire"@, v]) == Ok::<ArgsView, ArgErrorView>((ArgsView { fire: Some((w, t as u32)), sandbox: true, ..spec_defaults() })))
            &&& is_weapon(w) && spec_parse_unsigned(at, u32::MAX as nat) is None ==> spec_parse(
                seq!["--fire"@, v],
            ) == Err::<ArgsView, ArgErrorView>(ArgErrorView::BadValue("--fire WEAPON,TICK"@))
        }),
{
    lemma_arm_fire(spec_defaults(), v);
    reveal_with_fuel(parse_from, 2);
    assert(seq!["--fire"@, v][0] == "--fire"@);
    assert(seq!["--fire"@, v][1] == v);
}

/// `--blast` is matched by its own arm: none of the flags before it is `--blast`.
proof fn lemma_arm_blast(a: ArgsView, v: Seq<char>)
    ensures
        step(a, "--blast"@, v) == step_6(a, "--blast"@, v),
{
    reveal_strlit("--blast");
    reveal_strlit("--headless");
    assert("--blast"@.len() != "--headless"@.len());
    reveal_strlit("--motes");
    assert("--blast"@[2] != "--motes"@[2]);
    reveal_strlit("--hull");
    assert("--blast"@.len() != "--hull"@.len());
    reveal_strlit("--out");
    assert("--blast"@.len() != "--out"@.len());
    reveal_strlit("--frames");
    assert("--blast"@.len() != "--frames"@.len());
    reveal_strlit("--zoom");
    assert("--blast"@.len() != "--zoom"@.len());
    reveal_strlit("--target");
    assert("--blast"@.len() != "--target"@.len());
    reveal_strlit("--size");
    assert("--blast"@.len() != "--size"@.len());
    reveal_strlit("--chewers");
    assert("--blast"@.len() != "--chewers"@.len());
    reveal_strlit("--view");
    assert("--blast"@.len() != "--view"@.len());
    reveal_strlit("--panel");
    assert("--blast"@[2] != "--panel"@[2]);
    reveal_strlit("--build");
    assert("--blast"@[3] != "--build"@[3]);
    reveal_strlit("--wreck");
    assert("--blast"@[2] != "--wreck"@[2]);
    reveal_strlit("--explode");
    assert("--blast"@.len() != "--explode"@.len());
    reveal_strlit("--cadence");
    assert("--blast"@.len() != "--cadence"@.len());
    reveal_strlit("--fixed-dt");
    assert("--blast"@.len() != "--fixed-dt"@.len());
    reveal_strlit("--screen");
    assert("--blast"@.len() != "--screen"@.len());
    reveal_strlit("--sandbox");
    assert("--blast"@.len() != "--sandbox"@.len());
    reveal_strlit("--retreat");
    assert("--blast"@.len() != "--retreat"@.len());
    reveal_strlit("--base");
    assert("--blast"@.len() != "--base"@.len());
    reveal_strlit("--run-seed");
    assert("--blast"@.len() != "--run-seed"@.len());
    reveal_strlit("--job");
    assert("--blast"@.len() != "--job"@.len());
    reveal_strlit("--onward");
    assert("--blast"@.len() != "--onward"@.len());
    reveal_strlit("--jump");
    assert("--blast"@.len() != "--jump"@.len());
    reveal_strlit("--support");
    assert("--blast"@.len() != "--support"@.len());
    reveal_strlit("--play");
    assert("--blast"@.len() != "--play"@.len());
    reveal_strlit("--target-hull");
    assert("--blast"@.len() != "--target-hull"@.len());
    reveal_strlit("--seed");
    assert("--blast"@.len() != "--seed"@.len());
    reveal_strlit("--stand");
    assert("--blast"@[2] != "--stand"@[2]);
    reveal_strlit("--fire");
    assert("--blast"@.len() != "--fire"@.len());
}

/// `--blast N` alone, for a numeral N, sets `blast` to N and switches on `sandbox`, and nothing else;
/// anything else is refused with the flag's usage.
pub proof fn law_flag_blast(v: Seq<char>)
    ensures
        spec_parse_unsigned(v, u32::MAX as nat) matches Some(n) ==> spec_parse(seq!["--blast"@, v])
            == Ok::<ArgsView, ArgErrorView>((ArgsView { blast: Some(n as u32), sandbox: true, ..spec_defaults() })),
        spec_parse_unsigned(v, u32::MAX as nat) is None ==> spec_parse(seq!["--blast"@, v])
            == Err::<ArgsView, ArgErrorView>(ArgErrorView::BadValue("--blast TICK"@)),
{
    lemma_arm_blast(spec_defaults(), v);
    reveal_with_fuel(parse_from, 2);
    assert(seq!["--blast"@, v][0] == "--blast"@);
    assert(seq!["--blast"@, v][1] == v);
}

/// `--hives` is matched by its own arm: none of the flags before it is `--hives`.
proof fn lemma_arm_hives(a: ArgsView, v: Seq<char>)
    ensures
        step(a, "--hives"@, v) == step_6(a, "--hives"@, v),
        "--hives"@ != "--blast"@,
{
    reveal_strlit("--hives");
    reveal_strlit("--headless");
    assert("--hives"@.len() != "--headless"@.len());
    reveal_strlit("--motes");
    assert("--hives"@[2] != "--motes"@[2]);
    reveal_strlit("--hull");
    assert("--hives"@.len() != "--hull"@.len());
    reveal_strlit("--out");
    assert("--hives"@.len() != "--out"@.len());
    reveal_strlit("--frames");
    assert("--hives"@.len() != "--frames"@.len());
    reveal_strlit("--zoom");
    assert("--hives"@.len() != "--zoom"@.len());
    reveal_strlit("--target");
    assert("--hives"@.len() != "--target"@.len());
    reveal_strlit("--size");
    assert("--hives"@.len() != "--size"@.len());
    reveal_strlit("--chewers");
    assert("--hives"@.len() != "--chewers"@.len());
    reveal_strlit("--view");
    assert("--hives"@.len() != "--view"@.len());
    reveal_strlit("--panel");
    assert("--hives"@[2] != "--panel"@[2]);
    reveal_strlit("--build");
    assert("--hives"@[2] != "--build"@[2]);
    reveal_strlit("--wreck");
    assert("--hives"@[2] != "--wreck"@[2]);
    reveal_strlit("--explode");
    assert("--hives"@.len() != "--explode"@.len());
    reveal_strlit("--cadence");
    assert("--hives"@.len() != "--cadence"@.len());
    reveal_strlit("--fixed-dt");
    assert("--hives"@.len() != "--fixed-dt"@.len());
    reveal_strlit("--screen");
    assert("--hives"@.len() != "--screen"@.len());
    reveal_strlit("--sandbox");
    assert("--hives"@.len() != "--sandbox"@.len());
    reveal_strlit("--retreat");
    assert("--hives"@.len() != "--retreat"@.len());
    reveal_strlit("--base");
    assert("--hives"@.len() != "--base"@.len());
    reveal_strlit("--run-seed");
    assert("--hives"@.len() != "--run-seed"@.len());
    reveal_strlit("--job");
    assert("--hives"@.len() != "--job"@.len());
    reveal_strlit("--onward");
    assert("--hives"@.len() != "--onward"@.len());
    reveal_strlit("--jump");
    assert("--hives"@.len() != "--jump"@.len());
    reveal_strlit("--support");
    assert("--hives"@.len() != "--support"@.len());
    reveal_strlit("--play");
    assert("--hives"@.len() != "--play"@.len());
    reveal_strlit("--target-hull");
    assert("--hives"@.len() != "--target-hull"@.len());
    reveal_strlit("--seed");
    assert("--hives"@.len() != "--seed"@.len());
    reveal_strlit("--stand");
    assert("--hives"@[2] != "--stand"@[2]);
    reveal_strlit("--fire");
    assert("--hives"@.len() != "--fire"@.len());
    reveal_strlit("--blast");
    assert("--hives"@[2] != "--blast"@[2]);
}

/// `--hives N` alone, for a numeral N, sets `hives` to N, and nothing else;
/// anything else is refused with the flag's usage.
pub proof fn law_flag_hives(v: Seq<char>)
    ensures
        spec_parse_unsigned(v, usize::MAX as nat) matches Some(n) ==> spec_parse(seq!["--hives"@, v])
            == Ok::<ArgsView, ArgErrorView>((ArgsView { hives: n as usize, ..spec_defaults() })),
        spec_parse_unsigned(v, usize::MAX as nat) is None ==> spec_parse(seq!["--hives"@, v])
            == Err::<ArgsView, ArgErrorView>(ArgErrorView::BadValue("--hives N"@)),
{
    lemma_arm_hives(spec_defaults(), v);
    reveal_with_fuel(parse_from, 2);
    assert(seq!["--hives"@, v][0] == "--hives"@);
    assert(seq!["--hives"@, v][1] == v);
}

/// `--move` is matched by its own arm: none of the flags before it is `--move`.
proof fn lemma_arm_move(a: ArgsView, v: Seq<char>)
    ensures
        step(a, "--move"@, v) == step_6(a, "--move"@, v),
        "--move"@ != "--blast"@,
        "--move"@ != "--hives"@,
{
    reveal_strlit("--move");
    reveal_strlit("--headless");
    assert("--move"@.len() != "--headless"@.len());
    reveal_strlit("--motes");
    assert("--move"@.len() != "--motes"@.len());
    reveal_strlit("--hull");
    assert("--move"@[2] != "--hull"@[2]);
    reveal_strlit("--out");
    assert("--move"@.len() != "--out"@.len());
    reveal_strlit("--frames");
    assert("--move"@.len() != "--frames"@.len());
    reveal_strlit("--zoom");
    assert("--move"@[2] != "--zoom"@[2]);
    reveal_strlit("--target");
    assert("--move"@.len() != "--target"@.len());
    reveal_strlit("--size");
    assert("--move"@[2] != "--size"@[2]);
    reveal_strlit("--chewers");
    assert("--move"@.len() != "--chewers"@.len());
    reveal_strlit("--view");
    assert("--move"@[2] != "--view"@[2]);
    reveal_strlit("--panel");
    assert("--move"@.len() != "--panel"@.len());
    reveal_strlit("--build");
    assert("--move"@.len() != "--build"@.len());
    reveal_strlit("--wreck");
    assert("--move"@.len() != "--wreck"@.len());
    reveal_strlit("--explode");
    assert("--move"@.len() != "--explode"@.len());
    reveal_strlit("--cadence");
    assert("--move"@.len() != "--cadence"@.len());
    reveal_strlit("--fixed-dt");
    assert("--move"@.len() != "--fixed-dt"@.len());
    reveal_strlit("--screen");
    assert("--move"@.len() != "--screen"@.len());
    reveal_strlit("--sandbox");
    assert("--move"@.len() != "--sandbox"@.len());
    reveal_strlit("--retreat");
    assert("--move"@.len() != "--retreat"@.len());
    reveal_strlit("--base");
    assert("--move"@[2] != "--base"@[2]);
    reveal_strlit("--run-seed");
    assert("--move"@.len() != "--run-seed"@.len());
    reveal_strlit("--job");
    assert("--move"@.len() != "--job"@.len());
    reveal_strlit("--onward");
    assert("--move"@.len() != "--onward"@.len());
    reveal_strlit("--jump");
    assert("--move"@[2] != "--jump"@[2]);
    reveal_strlit("--support");
    assert("--move"@.len() != "--support"@.len());
    reveal_strlit("--play");
    assert("--move"@[2] != "--play"@[2]);
    reveal_strlit("--target-hull");
    assert("--move"@.len() != "--target-hull"@.len());
    reveal_strlit("--seed");
    assert("--move"@[2] != "--seed"@[2]);
    reveal_strlit("--stand");
    assert("--move"@.len() != "--stand"@.len());
    reveal_strlit("--fire");
    assert("--move"@[2] != "--fire"@[2]);
    reveal_strlit("--blast");
    assert("--move"@.len() != "--blast"@.len());
    reveal_strlit("--hives");
    assert("--move"@.len() != "--hives"@.len());
}

/// `--move TEXT` alone keeps the text as `order`, and nothing else.
pub proof fn law_flag_move(v: Seq<char>)
    ensures
        spec_parse(seq!["--move"@, v]) == Ok::<ArgsView, ArgErrorView>((ArgsView { order: Some(v), ..spec_defaults() })),
{
    lemma_arm_move(spec_defaults(), v);
    reveal_with_fuel(parse_from, 2);
    assert(seq!["--move"@, v][0] == "--move"@);
    assert(seq!["--move"@, v][1] == v);
}

/// `--aim` is matched by its own arm: none of the flags before it is `--aim`.
proof fn lemma_arm_aim(a: ArgsView, v: Seq<char>)
    ensures
        step(a, "--aim"@, v) == step_6(a, "--aim"@, v),
        "--aim"@ != "--blast"@,
        "--aim"@ != "--hives"@,
        "--aim"@ != "--move"@,
{
    reveal_strlit("--aim");
    reveal_strlit("--headless");
    assert("--aim"@.len() != "--headless"@.len());
    reveal_strlit("--motes");
    assert("--aim"@.len() != "--motes"@.len());
    reveal_strlit("--hull");
    assert("--aim"@.len() != "--hull"@.len());
    reveal_strlit("--out");
    assert("--aim"@[2] != "--out"@[2]);
    reveal_strlit("--frames");
    assert("--aim"@.len() != "--frames"@.len());
    reveal_strlit("--zoom");
    assert("--aim"@.len() != "--zoom"@.len());
    reveal_strlit("--target");
    assert("--aim"@.len() != "--target"@.len());
    reveal_strlit("--size");
    assert("--aim"@.len() != "--size"@.len());
    reveal_strlit("--chewers");
    assert("--aim"@.len() != "--chewers"@.len());
    reveal_strlit("--view");
    assert("--aim"@.len() != "--view"@.len());
    reveal_strlit("--panel");
    assert("--aim"@.len() != "--panel"@.len());
    reveal_strlit("--build");
    assert("--aim"@.len() != "--build"@.len());
    reveal_strlit("--wreck");
    assert("--aim"@.len() != "--wreck"@.len());
    reveal_strlit("--explode");
    assert("--aim"@.len() != "--explode"@.len());
    reveal_strlit("--cadence");
    assert("--aim"@.len() != "--cadence"@.len());
    reveal_strlit("--fixed-dt");
    assert("--aim"@.len() != "--fixed-dt"@.len());
    reveal_strlit("--screen");
    assert("--aim"@.len() != "--screen"@.len());
    reveal_strlit("--sandbox");
    assert("--aim"@.len() != "--sandbox"@.len());
    reveal_strlit("--retreat");
    assert("--aim"@.len() != "--retreat"@.len());
    reveal_strlit("--base");
    assert("--aim"@.len() != "--base"@.len());
    reveal_strlit("--run-seed");
    assert("--aim"@.len() != "--run-seed"@.len());
    reveal_strlit("--job");
    assert("--aim"@[2] != "--job"@[2]);
    reveal_strlit("--onward");
    assert("--aim"@.len() != "--onward"@.len());
    reveal_strlit("--jump");
    assert("--aim"@.len() != "--jump"@.len());
    reveal_strlit("--support");
    assert("--aim"@.len() != "--support"@.len());
    reveal_strlit("--play");
    assert("--aim"@.len() != "--play"@.len());
    reveal_strlit("--target-hull");
    assert("--aim"@.len() != "--target-hull"@.len());
    reveal_strlit("--seed");
    assert("--aim"@.len() != "--seed"@.len());
    reveal_strlit("--stand");
    assert("--aim"@.len() != "--stand"@.len());
    reveal_strlit("--fire");
    assert("--aim"@.len() != "--fire"@.len());
    reveal_strlit("--blast");
    assert("--aim"@.len() != "--blast"@.len());
    reveal_strlit("--hives");
    assert("--aim"@.len() != "--hives"@.len());
    reveal_strlit("--move");
    assert("--aim"@.len() != "--move"@.len());
}

/// `--aim TEXT` alone keeps the text as `aim`, and nothing else.
pub proof fn law_flag_aim(v: Seq<char>)
    ensures
        spec_parse(seq!["--aim"@, v]) == Ok::<ArgsView, ArgErrorView>((ArgsView { aim: Some(v), ..spec_defaults() })),
{
    lemma_arm_aim(spec_defaults(), v);
    reveal_with_fuel(parse_from, 2);
    assert(seq!["--aim"@, v][0] == "--aim"@);
    assert(seq!["--aim"@, v][1] == v);
}

/// `--showcase` is matched by its own arm: none of the flags before it is `--showcase`.
proof fn lemma_arm_showcase(a: ArgsView, v: Seq<char>)
    ensures
        step(a, "--showcase"@, v) == step_6(a, "--showcase"@, v),
        "--showcase"@ != "--blast"@,
        "--showcase"@ != "--hives"@,
        "--showcase"@ != "--move"@,
        "--showcase"@ != "--aim"@,
{
    reveal_strlit("--showcase");
    reveal_strlit("--headless");
    assert("--showcase"@[2] != "--headless"@[2]);
    reveal_strlit("--motes");
    assert("--showcase"@.len() != "--motes"@.len());
    reveal_strlit("--hull");
    assert("--showcase"@.len() != "--hull"@.len());
    reveal_strlit("--out");
    assert("--showcase"@.len() != "--out"@.len());
    reveal_strlit("--frames");
    assert("--showcase"@.len() != "--frames"@.len());
    reveal_strlit("--zoom");
    assert("--showcase"@.len() != "--zoom"@.len());
    reveal_strlit("--target");
    assert("--showcase"@.len() != "--target"@.len());
    reveal_strlit("--size");
    assert("--showcase"@.len() != "--size"@.len());
    reveal_strlit("--chewers");
    assert("--showcase"@.len() != "--chewers"@.len());
    reveal_strlit("--view");
    assert("--showcase"@.len() != "--view"@.len());
    reveal_strlit("--panel");
    assert("--showcase"@.len() != "--panel"@.len());
    reveal_strlit("--build");
    assert("--showcase"@.len() != "--build"@.len());
    reveal_strlit("--wreck");
    assert("--showcase"@.len() != "--wreck"@.len());
    reveal_strlit("--explode");
    assert("--showcase"@.len() != "--explode"@.len());
    reveal_strlit("--cadence");
    assert("--showcase"@.len() != "--cadence"@.len());
    reveal_strlit("--fixed-dt");
    assert("--showcase"@[2] != "--fixed-dt"@[2]);
    reveal_strlit("--screen");
    assert("--showcase"@.len() != "--screen"@.len());
    reveal_strlit("--sandbox");
    assert("--showcase"@.len() != "--sandbox"@.len());
    reveal_strlit("--retreat");
    assert("--showcase"@.len() != "--retreat"@.len());
    reveal_strlit("--base");
    assert("--showcase"@.len() != "--base"@.len());
    reveal_strlit("--run-seed");
    assert("--showcase"@[2] != "--run-seed"@[2]);
    reveal_strlit("--job");
    assert("--showcase"@.len() != "--job"@.len());
    reveal_strlit("--onward");
    assert("--showcase"@.len() != "--onward"@.len());
    reveal_strlit("--jump");
    assert("--showcase"@.len() != "--jump"@.len());
    reveal_strlit("--support");
    assert("--showcase"@.len() != "--support"@.len());
    reveal_strlit("--play");
    assert("--showcase"@.len() != "--play"@.len());
    reveal_strlit("--target-hull");
    assert("--showcase"@.len() != "--target-hull"@.len());
    reveal_strlit("--seed");
    assert("--showcase"@.len() != "--seed"@.len());
    reveal_strlit("--stand");
    assert("--showcase"@.len() != "--stand"@.len());
    reveal_strlit("--fire");
    assert("--showcase"@.len() != "--fire"@.len());
    reveal_strlit("--blast");
    assert("--showcase"@.len() != "--blast"@.len());
    reveal_strlit("--hives");
    assert("--showcase"@.len() != "--hives"@.len());
    reveal_strlit("--move");
    assert("--showcase"@.len() != "--move"@.len());
    reveal_strlit("--aim");
    assert("--showcase"@.len() != "--aim"@.len());
}

/// `--showcase` alone switches on `showcase`, and nothing else.
pub proof fn law_flag_showcase()
    ensures
        spec_parse(seq!["--showcase"@]) == Ok::<ArgsView, ArgErrorView>((ArgsView { showcase: true, ..spec_defaults() })),
{
    lemma_arm_showcase(spec_defaults(), Seq::empty());
    reveal_with_fuel(parse_from, 2);
    assert(seq!["--showcase"@][0] == "--showcase"@);
}

/// `--hud` is matched by its own arm: none of the flags before it is `--hud`.
proof fn lemma_arm_hud(a: ArgsView, v: Seq<char>)
    ensures
        step(a, "--hud"@, v) == step_6(a, "--hud"@, v),
        "--hud"@ != "--blast"@,
        "--hud"@ != "--hives"@,
        "--hud"@ != "--move"@,
        "--hud"@ != "--aim"@,
        "--hud"@ != "--showcase"@,
{
    reveal_strlit("--hud");
    reveal_strlit("--headless");
    assert("--hud"@.len() != "--headless"@.len());
    reveal_strlit("--motes");
    assert("--hud"@.len() != "--motes"@.len());
    reveal_strlit("--hull");
    assert("--hud"@.len() != "--hull"@.len());
    reveal_strlit("--out");
    assert("--hud"@[2] != "--out"@[2]);
    reveal_strlit("--frames");
    assert("--hud"@.len() != "--frames"@.len());
    reveal_strlit("--zoom");
    assert("--hud"@.len() != "--zoom"@.len());
    reveal_strlit("--target");
    assert("--hud"@.len() != "--target"@.len());
    reveal_strlit("--size");
    assert("--hud"@.len() != "--size"@.len());
    reveal_strlit("--chewers");
    assert("--hud"@.len() != "--chewers"@.len());
    reveal_strlit("--view");
    assert("--hud"@.len() != "--view"@.len());
    reveal_strlit("--panel");
    assert("--hud"@.len() != "--panel"@.len());
    reveal_strlit("--build");
    assert("--hud"@.len() != "--build"@.len());
    reveal_strlit("--wreck");
    assert("--hud"@.len() != "--wreck"@.len());
    reveal_strlit("--explode");
    assert("--hud"@.len() != "--explode"@.len());
    reveal_strlit("--cadence");
    assert("--hud"@.len() != "--cadence"@.len());
    reveal_strlit("--fixed-dt");
    assert("--hud"@.len() != "--fixed-dt"@.len());
    reveal_strlit("--screen");
    assert("--hud"@.len() != "--screen"@.len());
    reveal_strlit("--sandbox");
    assert("--hud"@.len() != "--sandbox"@.len());
    reveal_strlit("--retreat");
    assert("--hud"@.len() != "--retreat"@.len());
    reveal_strlit("--base");
    assert("--hud"@.len() != "--base"@.len());
    reveal_strlit("--run-seed");
    assert("--hud"@.len() != "--run-seed"@.len());
    reveal_strlit("--job");
    assert("--hud"@[2] != "--job"@[2]);
    reveal_strlit("--onward");
    assert("--hud"@.len() != "--onward"@.len());
    reveal_strlit("--jump");
    assert("--hud"@.len() != "--jump"@.len());
    reveal_strlit("--support");
    assert("--hud"@.len() != "--support"@.len());
    reveal_strlit("--play");
    assert("--hud"@.len() != "--play"@.len());
    reveal_strlit("--target-hull");
    assert("--hud"@.len() != "--target-hull"@.len());
    reveal_strlit("--seed");
    assert("--hud"@.len() != "--seed"@.len());
    reveal_strlit("--stand");
    assert("--hud"@.len() != "--stand"@.len());
    reveal_strlit("--fire");
    assert("--hud"@.len() != "--fire"@.len());
    reveal_strlit("--blast");
    assert("--hud"@.len() != "--blast"@.len());
    reveal_strlit("--hives");
    assert("--hud"@.len() != "--hives"@.len());
    reveal_strlit("--move");
    assert("--hud"@.len() != "--move"@.len());
    reveal_strlit("--aim");
    assert("--hud"@[2] != "--aim"@[2]);
    reveal_strlit("--showcase");
    assert("--hud"@.len() != "--showcase"@.len());
}

/// `--hud` alone switches on `hud`, and nothing else.
pub proof fn law_flag_hud()
    ensures
        spec_parse(seq!["--hud"@]) == Ok::<ArgsView, ArgErrorView>((ArgsView { hud: true, ..spec_defaults() })),
{
    lemma_arm_hud(spec_defaults(), Seq::empty());
    reveal_with_fuel(parse_from, 2);
    assert(seq!["--hud"@][0] == "--hud"@);
}

/// `--watch-craft` is matched by its own arm: none of the flags before it is `--watch-craft`.
proof fn lemma_arm_watch_craft(a: ArgsView, v: Seq<char>)
    ensures
        step(a, "--watch-craft"@, v) == step_7(a, "--watch-craft"@, v),
{
    reveal_strlit("--watch-craft");
    reveal_strlit("--headless");
    assert("--watch-craft"@.len() != "--headless"@.len());
    reveal_strlit("--motes");
    assert("--watch-craft"@.len() != "--motes"@.len());
    reveal_strlit("--hull");
    assert("--watch-craft"@.len() != "--hull"@.len());
    reveal_strlit("--out");
    assert("--watch-craft"@.len() != "--out"@.len());
    reveal_strlit("--frames");
    assert("--watch-craft"@.len() != "--frames"@.len());
    reveal_strlit("--zoom");
    assert("--watch-craft"@.len() != "--zoom"@.len());
    reveal_strlit("--target");
    assert("--watch-craft"@.len() != "--target"@.len());
    reveal_strlit("--size");
    assert("--watch-craft"@.len() != "--size"@.len());
    reveal_strlit("--chewers");
    assert("--watch-craft"@.len() != "--chewers"@.len());
    reveal_strlit("--view");
    assert("--watch-craft"@.len() != "--view"@.len());
    reveal_strlit("--panel");
    assert("--watch-craft"@.len() != "--panel"@.len());
    reveal_strlit("--build");
    assert("--watch-craft"@.len() != "--build"@.len());
    reveal_strlit("--wreck");
    assert("--watch-craft"@.len() != "--wreck"@.len());
    reveal_strlit("--explode");
    assert("--watch-craft"@.len() != "--explode"@.len());
    reveal_strlit("--cadence");
    assert("--watch-craft"@.len() != "--cadence"@.len());
    reveal_strlit("--fixed-dt");
    assert("--watch-craft"@.len() != "--fixed-dt"@.len());
    reveal_strlit("--screen");
    assert("--watch-craft"@.len() != "--screen"@.len());
    reveal_strlit("--sandbox");
    assert("--watch-craft"@.len() != "--sandbox"@.len());
    reveal_strlit("--retreat");
    assert("--watch-craft"@.len() != "--retreat"@.len());
    reveal_strlit("--base");
    assert("--watch-craft"@.len() != "--base"@.len());
    reveal_strlit("--run-seed");
    assert("--watch-craft"@.len() != "--run-seed"@.len());
    reveal_strlit("--job");
    assert("--watch-craft"@.len() != "--job"@.len());
    reveal_strlit("--onward");
    assert("--watch-craft"@.len() != "--onward"@.len());
    reveal_strlit("--jump");
    assert("--watch-craft"@.len() != "--jump"@.len());
    reveal_strlit("--support");
    assert("--watch-craft"@.len() != "--support"@.len());
    reveal_strlit("--play");
    assert("--watch-craft"@.len() != "--play"@.len());
    reveal_strlit("--target-hull");
    assert("--watch-craft"@[2] != "--target-hull"@[2]);
    reveal_strlit("--seed");
    assert("--watch-craft"@.len() != "--seed"@.len());
    reveal_strlit("--stand");
    assert("--watch-craft"@.len() != "--stand"@.len());
    reveal_strlit("--fire");
    assert("--watch-craft"@.len() != "--fire"@.len());
    reveal_strlit("--blast");
    assert("--watch-craft"@.len() != "--blast"@.len());
    reveal_strlit("--hives");
    assert("--watch-craft"@.len() != "--hives"@.len());
    reveal_strlit("--move");
    assert("--watch-craft"@.len() != "--move"@.len());
    reveal_strlit("--aim");
    assert("--watch-craft"@.len() != "--aim"@.len());
    reveal_strlit("--showcase");
    assert("--watch-craft"@.len() != "--showcase"@.len());
    reveal_strlit("--hud");
    assert("--watch-craft"@.len() != "--hud"@.len());
}

/// `--watch-craft` alone switches on `watch_craft`, and nothing else.
pub proof fn law_flag_watch_craft()
    ensures
        spec_parse(seq!["--watch-craft"@]) == Ok::<ArgsView, ArgErrorView>((ArgsView { watch_craft: true, ..spec_defaults() })),
{
    lemma_arm_watch_craft(spec_defaults(), Seq::empty());
    reveal_with_fuel(parse_from, 2);
    assert(seq!["--watch-craft"@][0] == "--watch-craft"@);
}

/// `--yaw` is matched by its own arm: none of the flags before it is `--yaw`.
proof fn lemma_arm_yaw(a: ArgsView, v: Seq<char>)
    ensures
        step(a, "--yaw"@, v) == step_7(a, "--yaw"@, v),
        "--yaw"@ != "--watch-craft"@,
{
    reveal_strlit("--yaw");
    reveal_strlit("--headless");
    assert("--yaw"@.len() != "--headless"@.len());
    reveal_strlit("--motes");
    assert("--yaw"@.len() != "--motes"@.len());
    reveal_strlit("--hull");
    assert("--yaw"@.len() != "--hull"@.len());
    reveal_strlit("--out");
    assert("--yaw"@[2] != "--out"@[2]);
    reveal_strlit("--frames");
    assert("--yaw"@.len() != "--frames"@.len());
    reveal_strlit("--zoom");
    assert("--yaw"@.len() != "--zoom"@.len());
    reveal_strlit("--target");
    assert("--yaw"@.len() != "--target"@.len());
    reveal_strlit("--size");
    assert("--yaw"@.len() != "--size"@.len());
    reveal_strlit("--chewers");
    assert("--yaw"@.len() != "--chewers"@.len());
    reveal_strlit("--view");
    assert("--yaw"@.len() != "--view"@.len());
    reveal_strlit("--panel");
    assert("--yaw"@.len() != "--panel"@.len());
    reveal_strlit("--build");
    assert("--yaw"@.len() != "--build"@.len());
    reveal_strlit("--wreck");
    assert("--yaw"@.len() != "--wreck"@.len());
    reveal_strlit("--explode");
    assert("--yaw"@.len() != "--explode"@.len());
    reveal_strlit("--cadence");
    assert("--yaw"@.len() != "--cadence"@.len());
    reveal_strlit("--fixed-dt");
    assert("--yaw"@.len() != "--fixed-dt"@.len());
    reveal_strlit("--screen");
    assert("--yaw"@.len() != "--screen"@.len());
    reveal_strlit("--sandbox");
    assert("--yaw"@.len() != "--sandbox"@.len());
    reveal_strlit("--retreat");
    assert("--yaw"@.len() != "--retreat"@.len());
    reveal_strlit("--base");
    assert("--yaw"@.len() != "--base"@.len());
    reveal_strlit("--run-seed");
    assert("--yaw"@.len() != "--run-seed"@.len());
    reveal_strlit("--job");
    assert("--yaw"@[2] != "--job"@[2]);
    reveal_strlit("--onward");
    assert("--yaw"@.len() != "--onward"@.len());
    reveal_strlit("--jump");
    assert("--yaw"@.len() != "--jump"@.len());
    reveal_strlit("--support");
    assert("--yaw"@.len() != "--support"@.len());
    reveal_strlit("--play");
    assert("--yaw"@.len() != "--play"@.len());
    reveal_strlit("--target-hull");
    assert("--yaw"@.len() != "--target-hull"@.len());
    reveal_strlit("--seed");
    assert("--yaw"@.len() != "--seed"@.len());
    reveal_strlit("--stand");
    assert("--yaw"@.len() != "--stand"@.len());
    reveal_strlit("--fire");
    assert("--yaw"@.len() != "--fire"@.len());
    reveal_strlit("--blast");
    assert("--yaw"@.len() != "--blast"@.len());
    reveal_strlit("--hives");
    assert("--yaw"@.len() != "--hives"@.len());
    reveal_strlit("--move");
    assert("--yaw"@.len() != "--move"@.len());
    reveal_strlit("--aim");
    assert("--yaw"@[2] != "--aim"@[2]);
    reveal_strlit("--showcase");
    assert("--yaw"@.len() != "--showcase"@.len());
    reveal_strlit("--hud");
    assert("--yaw"@[2] != "--hud"@[2]);
    reveal_strlit("--watch-craft");
    assert("--yaw"@.len() != "--watch-craft"@.len());
}

/// `--yaw TEXT` alone keeps the text as `yaw`, and nothing else.
pub proof fn law_flag_yaw(v: Seq<char>)
    ensures
        spec_parse(seq!["--yaw"@, v]) == Ok::<ArgsView, ArgErrorView>((ArgsView { yaw: Some(v), ..spec_defaults() })),
{
    lemma_arm_yaw(spec_defaults(), v);
    reveal_with_fuel(parse_from, 2);
    assert(seq!["--yaw"@, v][0] == "--yaw"@);
    assert(seq!["--yaw"@, v][1] == v);
}

/// `--pitch` is matched by its own arm: none of the flags before it is `--pitch`.
proof fn lemma_arm_pitch(a: ArgsView, v: Seq<char>)
    ensures
        step(a, "--pitch"@, v) == step_7(a, "--pitch"@, v),
        "--pitch"@ != "--watch-craft"@,
        "--pitch"@ != "--yaw"@,
{
    reveal_strlit("--pitch");
    reveal_strlit("--headless");
    assert("--pitch"@.len() != "--headless"@.len());
    reveal_strlit("--motes");
    assert("--pitch"@[2] != "--motes"@[2]);
    reveal_strlit("--hull");
    assert("--pitch"@.len() != "--hull"@.len());
    reveal_strlit("--out");
    assert("--pitch"@.len() != "--out"@.len());
    reveal_strlit("--frames");
    assert("--pitch"@.len() != "--frames"@.len());
    reveal_strlit("--zoom");
    assert("--pitch"@.len() != "--zoom"@.len());
    reveal_strlit("--target");
    assert("--pitch"@.len() != "--target"@.len());
    reveal_strlit("--size");
    assert("--pitch"@.len() != "--size"@.len());
    reveal_strlit("--chewers");
    assert("--pitch"@.len() != "--chewers"@.len());
    reveal_strlit("--view");
    assert("--pitch"@.len() != "--view"@.len());
    reveal_strlit("--panel");
    assert("--pitch"@[3] != "--panel"@[3]);
    reveal_strlit("--build");
    assert("--pitch"@[2] != "--build"@[2]);
    reveal_strlit("--wreck");
    assert("--pitch"@[2] != "--wreck"@[2]);
    reveal_strlit("--explode");
    assert("--pitch"@.len() != "--explode"@.len());
    reveal_strlit("--cadence");
    assert("--pitch"@.len() != "--cadence"@.len());
    reveal_strlit("--fixed-dt");
    assert("--pitch"@.len() != "--fixed-dt"@.len());
    reveal_strlit("--screen");
    assert("--pitch"@.len() != "--screen"@.len());
    reveal_strlit("--sandbox");
    assert("--pitch"@.len() != "--sandbox"@.len());
    reveal_strlit("--retreat");
    assert("--pitch"@.len() != "--retreat"@.len());
    reveal_strlit("--base");
    assert("--pitch"@.len() != "--base"@.len());
    reveal_strlit("--run-seed");
    assert("--pitch"@.len() != "--run-seed"@.len());
    reveal_strlit("--job");
    assert("--pitch"@.len() != "--job"@.len());
    reveal_strlit("--onward");
    assert("--pitch"@.len() != "--onward"@.len());
    reveal_strlit("--jump");
    assert("--pitch"@.len() != "--jump"@.len());
    reveal_strlit("--support");
    assert("--pitch"@.len() != "--support"@.len());
    reveal_strlit("--play");
    assert("--pitch"@.len() != "--play"@.len());
    reveal_strlit("--target-hull");
    assert("--pitch"@.len() != "--target-hull"@.len());
    reveal_strlit("--seed");
    assert("--pitch"@.len() != "--seed"@.len());
    reveal_strlit("--stand");
    assert("--pitch"@[2] != "--stand"@[2]);
    reveal_strlit("--fire");
    assert("--pitch"@.len() != "--fire"@.len());
    reveal_strlit("--blast");
    assert("--pitch"@[2] != "--blast"@[2]);
    reveal_strlit("--hives");
    assert("--pitch"@[2] != "--hives"@[2]);
    reveal_strlit("--move");
    assert("--pitch"@.len() != "--move"@.len());
    reveal_strlit("--aim");
    assert("--pitch"@.len() != "--aim"@.len());
    reveal_strlit("--showcase");
    assert("--pitch"@.len() != "--showcase"@.len());
    reveal_strlit("--hud");
    assert("--pitch"@.len() != "--hud"@.len());
    reveal_strlit("--watch-craft");
    assert("--pitch"@.len() != "--watch-craft"@.len());
    reveal_strlit("--yaw");
    assert("--pitch"@.len() != "--yaw"@.len());
}

/// `--pitch TEXT` alone keeps the text as `pitch`, and nothing else.
pub proof fn law_flag_pitch(v: Seq<char>)
    ensures
        spec_parse(seq!["--pitch"@, v]) == Ok::<ArgsView, ArgErrorView>((ArgsView { pitch: Some(v), ..spec_defaults() })),
{
    lemma_arm_pitch(spec_defaults(), v);
    reveal_with_fuel(parse_from, 2);
    assert(seq!["--pitch"@, v][0] == "--pitch"@);
    assert(seq!["--pitch"@, v][1] == v);
}

/// `--paused` is matched by its own arm: none of the flags before it is `--paused`.
proof fn lemma_arm_paused(a: ArgsView, v: Seq<char>)
    ensures
        step(a, "--paused"@, v) == step_7(a, "--paused"@, v),
        "--paused"@ != "--watch-craft"@,
        "--paused"@ != "--yaw"@,
        "--paused"@ != "--pitch"@,
{
    reveal_strlit("--paused");
    reveal_strlit("--headless");
    assert("--paused"@.len() != "--headless"@.len());
    reveal_strlit("--motes");
    assert("--paused"@.len() != "--motes"@.len());
    reveal_strlit("--hull");
    assert("--paused"@.len() != "--hull"@.len());
    reveal_strlit("--out");
    assert("--paused"@.len() != "--out"@.len());
    reveal_strlit("--frames");
    assert("--paused"@[2] != "--frames"@[2]);
    reveal_strlit("--zoom");
    assert("--paused"@.len() != "--zoom"@.len());
    reveal_strlit("--target");
    assert("--paused"@[2] != "--target"@[2]);
    reveal_strlit("--size");
    assert("--paused"@.len() != "--size"@.len());
    reveal_strlit("--chewers");
    assert("--paused"@.len() != "--chewers"@.len());
    reveal_strlit("--view");
    assert("--paused"@.len() != "--view"@.len());
    reveal_strlit("--panel");
    assert("--paused"@.len() != "--panel"@.len());
    reveal_strlit("--build");
    assert("--paused"@.len() != "--build"@.len());
    reveal_strlit("--wreck");
    assert("--paused"@.len() != "--wreck"@.len());
    reveal_strlit("--explode");
    assert("--paused"@.len() != "--explode"@.len());
    reveal_strlit("--cadence");
    assert("--paused"@.len() != "--cadence"@.len());
    reveal_strlit("--fixed-dt");
    assert("--paused"@.len() != "--fixed-dt"@.len());
    reveal_strlit("--screen");
    assert("--paused"@[2] != "--screen"@[2]);
    reveal_strlit("--sandbox");
    assert("--paused"@.len() != "--sandbox"@.len());
    reveal_strlit("--retreat");
    assert("--paused"@.len() != "--retreat"@.len());
    reveal_strlit("--base");
    assert("--paused"@.len() != "--base"@.len());
    reveal_strlit("--run-seed");
    assert("--paused"@.len() != "--run-seed"@.len());
    reveal_strlit("--job");
    assert("--paused"@.len() != "--job"@.len());
    reveal_strlit("--onward");
    assert("--paused"@[2] != "--onward"@[2]);
    reveal_strlit("--jump");
    assert("--paused"@.len() != "--jump"@.len());
    reveal_strlit("--support");
    assert("--paused"@.len() != "--support"@.len());
    reveal_strlit("--play");
    assert("--paused"@.len() != "--play"@.len());
    reveal_strlit("--target-hull");
    assert("--paused"@.len() != "--target-hull"@.len());
    reveal_strlit("--seed");
    assert("--paused"@.len() != "--seed"@.len());
    reveal_strlit("--stand");
    assert("--paused"@.len() != "--stand"@.len());
    reveal_strlit("--fire");
    assert("--paused"@.len() != "--fire"@.len());
    reveal_strlit("--blast");
    assert("--paused"@.len() != "--blast"@.len());
    reveal_strlit("--hives");
    assert("--paused"@.len() != "--hives"@.len());
    reveal_strlit("--move");
    assert("--paused"@.len() != "--move"@.len());
    reveal_strlit("--aim");
    assert("--paused"@.len() != "--aim"@.len());
    reveal_strlit("--showcase");
    assert("--paused"@.len() != "--showcase"@.len());
    reveal_strlit("--hud");
    assert("--paused"@.len() != "--hud"@.len());
    reveal_strlit("--watch-craft");
    assert("--paused"@.len() != "--watch-craft"@.len());
    reveal_strlit("--yaw");
    assert("--paused"@.len() != "--yaw"@.len());
    reveal_strlit("--pitch");
    assert("--paused"@.len() != "--pitch"@.len());
}

/// `--paused` alone switches on `hud`, `paused`, and nothing else.
pub proof fn law_flag_paused()
    ensures
        spec_parse(seq!["--paused"@]) == Ok::<ArgsView, ArgErrorView>((ArgsView { hud: true, paused: true, ..spec_defaults() })),
{
    lemma_arm_paused(spec_defaults(), Seq::empty());
    reveal_with_fuel(parse_from, 2);
    assert(seq!["--paused"@][0] == "--paused"@);
}

/// `--reinforce` is matched by its own arm: none of the flags before it is `--reinforce`.
proof fn lemma_arm_reinforce(a: ArgsView, v: Seq<char>)
    ensures
        step(a, "--reinforce"@, v) == step_7(a, "--reinforce"@, v),
        "--reinforce"@ != "--watch-craft"@,
        "--reinforce"@ != "--yaw"@,
        "--reinforce"@ != "--pitch"@,
        "--reinforce"@ != "--paused"@,
{
    reveal_strlit("--reinforce");
    reveal_strlit("--headless");
    assert("--reinforce"@.len() != "--headless"@.len());
    reveal_strlit("--motes");
    assert("--reinforce"@.len() != "--motes"@.len());
    reveal_strlit("--hull");
    assert("--reinforce"@.len() != "--hull"@.len());
    reveal_strlit("--out");
    assert("--reinforce"@.len() != "--out"@.len());
    reveal_strlit("--frames");
    assert("--reinforce"@.len() != "--frames"@.len());
    reveal_strlit("--zoom");
    assert("--reinforce"@.len() != "--zoom"@.len());
    reveal_strlit("--target");
    assert("--reinforce"@.len() != "--target"@.len());
    reveal_strlit("--size");
    assert("--reinforce"@.len() != "--size"@.len());
    reveal_strlit("--chewers");
    assert("--reinforce"@.len() != "--chewers"@.len());
    reveal_strlit("--view");
    assert("--reinforce"@.len() != "--view"@.len());
    reveal_strlit("--panel");
    assert("--reinforce"@.len() != "--panel"@.len());
    reveal_strlit("--build");
    assert("--reinforce"@.len() != "--build"@.len());
    reveal_strlit("--wreck");
    assert("--reinforce"@.len() != "--wreck"@.len());
    reveal_strlit("--explode");
    assert("--reinforce"@.len() != "--explode"@.len());
    reveal_strlit("--cadence");
    assert("--reinforce"@.len() != "--cadence"@.len());
    reveal_strlit("--fixed-dt");
    assert("--reinforce"@.len() != "--fixed-dt"@.len());
    reveal_strlit("--screen");
    assert("--reinforce"@.len() != "--screen"@.len());
    reveal_strlit("--sandbox");
    assert("--reinforce"@.len() != "--sandbox"@.len());
    reveal_strlit("--retreat");
    assert("--reinforce"@.len() != "--retreat"@.len());
    reveal_strlit("--base");
    assert("--reinforce"@.len() != "--base"@.len());
    reveal_strlit("--run-seed");
    assert("--reinforce"@.len() != "--run-seed"@.len());
    reveal_strlit("--job");
    assert("--reinforce"@.len() != "--job"@.len());
    reveal_strlit("--onward");
    assert("--reinforce"@.len() != "--onward"@.len());
    reveal_strlit("--jump");
    assert("--reinforce"@.len() != "--jump"@.len());
    reveal_strlit("--support");
    assert("--reinforce"@.len() != "--support"@.len());
    reveal_strlit("--play");
    assert("--reinforce"@.len() != "--play"@.len());
    reveal_strlit("--target-hull");
    assert("--reinforce"@.len() != "--target-hull"@.len());
    reveal_strlit("--seed");
    assert("--reinforce"@.len() != "--seed"@.len());
    reveal_strlit("--stand");
    assert("--reinforce"@.len() != "--stand"@.len());
    reveal_strlit("--fire");
    assert("--reinforce"@.len() != "--fire"@.len());
    reveal_strlit("--blast");
    assert("--reinforce"@.len() != "--blast"@.len());
    reveal_strlit("--hives");
    assert("--reinforce"@.len() != "--hives"@.len());
    reveal_strlit("--move");
    assert("--reinforce"@.len() != "--move"@.len());
    reveal_strlit("--aim");
    assert("--reinforce"@.len() != "--aim"@.len());
    reveal_strlit("--showcase");
    assert("--reinforce"@.len() != "--showcase"@.len());
    reveal_strlit("--hud");
    assert("--reinforce"@.len() != "--hud"@.len());
    reveal_strlit("--watch-craft");
    assert("--reinforce"@.len() != "--watch-craft"@.len());
    reveal_strlit("--yaw");
    assert("--reinforce"@.len() != "--yaw"@.len());
    reveal_strlit("--pitch");
    assert("--reinforce"@.len() != "--pitch"@.len());
    reveal_strlit("--paused");
    assert("--reinforce"@.len() != "--paused"@.len());
}

/// `--reinforce N` alone, for a numeral N, sets `reinforce` to N, and nothing else;
/// anything else is refused with the flag's usage.
pub proof fn law_flag_reinforce(v: Seq<char>)
    ensures
        spec_parse_unsigned(v, u32::MAX as nat) matches Some(n) ==> spec_parse(seq!["--reinforce"@, v])
            == Ok::<ArgsView, ArgErrorView>((ArgsView { reinforce: n as u32, ..spec_defaults() })),
        spec_parse_unsigned(v, u32::MAX as nat) is None ==> spec_parse(seq!["--reinforce"@, v])
            == Err::<ArgsView, ArgErrorView>(ArgErrorView::BadValue("--reinforce N"@)),
{
    lemma_arm_reinforce(spec_defaults(), v);
    reveal_with_fuel(parse_from, 2);
    assert(seq!["--reinforce"@, v][0] == "--reinforce"@);
    assert(seq!["--reinforce"@, v][1] == v);
}

/// `--rocks` is matched by its own arm: none of the flags before it is `--rocks`.
proof fn lemma_arm_rocks(a: ArgsView, v: Seq<char>)
    ensures
        step(a, "--rocks"@, v) == step_7(a, "--rocks"@, v),
        "--rocks"@ != "--watch-craft"@,
        "--rocks"@ != "--yaw"@,
        "--rocks"@ != "--pitch"@,
        "--rocks"@ != "--paused"@,
        "--rocks"@ != "--reinforce"@,
{
    reveal_strlit("--rocks");
    reveal_strlit("--headless");
    assert("--rocks"@.len() != "--headless"@.len());
    reveal_strlit("--motes");
    assert("--rocks"@[2] != "--motes"@[2]);
    reveal_strlit("--hull");
    assert("--rocks"@.len() != "--hull"@.len());
    reveal_strlit("--out");
    assert("--rocks"@.len() != "--out"@.len());
    reveal_strlit("--frames");
    assert("--rocks"@.len() != "--frames"@.len());
    reveal_strlit("--zoom");
    assert("--rocks"@.len() != "--zoom"@.len());
    reveal_strlit("--target");
    assert("--rocks"@.len() != "--target"@.len());
    reveal_strlit("--size");
    assert("--rocks"@.len() != "--size"@.len());
    reveal_strlit("--chewers");
    assert("--rocks"@.len() != "--chewers"@.len());
    reveal_strlit("--view");
    assert("--rocks"@.len() != "--view"@.len());
    reveal_strlit("--panel");
    assert("--rocks"@[2] != "--panel"@[2]);
    reveal_strlit("--build");
    assert("--rocks"@[2] != "--build"@[2]);
    reveal_strlit("--wreck");
    assert("--rocks"@[2] != "--wreck"@[2]);
    reveal_strlit("--explode");
    assert("--rocks"@.len() != "--explode"@.len());
    reveal_strlit("--cadence");
    assert("--rocks"@.len() != "--cadence"@.len());
    reveal_strlit("--fixed-dt");
    assert("--rocks"@.len() != "--fixed-dt"@.len());
    reveal_strlit("--screen");
    assert("--rocks"@.len() != "--screen"@.len());
    reveal_strlit("--sandbox");
    assert("--rocks"@.len() != "--sandbox"@.len());
    reveal_strlit("--retreat");
    assert("--rocks"@.len() != "--retreat"@.len());
    reveal_strlit("--base");
    assert("--rocks"@.len() != "--base"@.len());
    reveal_strlit("--run-seed");
    assert("--rocks"@.len() != "--run-seed"@.len());
    reveal_strlit("--job");
    assert("--rocks"@.len() != "--job"@.len());
    reveal_strlit("--onward");
    assert("--rocks"@.len() != "--onward"@.len());
    reveal_strlit("--jump");
    assert("--rocks"@.len() != "--jump"@.len());
    reveal_strlit("--support");
    assert("--rocks"@.len() != "--support"@.len());
    reveal_strlit("--play");
    assert("--rocks"@.len() != "--play"@.len());
    reveal_strlit("--target-hull");
    assert("--rocks"@.len() != "--target-hull"@.len());
    reveal_strlit("--seed");
    assert("--rocks"@.len() != "--seed"@.len());
    reveal_strlit("--stand");
    assert("--rocks"@[2] != "--stand"@[2]);
    reveal_strlit("--fire");
    assert("--rocks"@.len() != "--fire"@.len());
    reveal_strlit("--blast");
    assert("--rocks"@[2] != "--blast"@[2]);
    reveal_strlit("--hives");
    assert("--rocks"@[2] != "--hives"@[2]);
    reveal_strlit("--move");
    assert("--rocks"@.len() != "--move"@.len());
    reveal_strlit("--aim");
    assert("--rocks"@.len() != "--aim"@.len());
    reveal_strlit("--showcase");
    assert("--rocks"@.len() != "--showcase"@.len());
    reveal_strlit("--hud");
    assert("--rocks"@.len() != "--hud"@.len());
    reveal_strlit("--watch-craft");
    assert("--rocks"@.len() != "--watch-craft"@.len());
    reveal_strlit("--yaw");
    assert("--rocks"@.len() != "--yaw"@.len());
    reveal_strlit("--pitch");
    assert("--rocks"@[2] != "--pitch"@[2]);
    reveal_strlit("--paused");
    assert("--rocks"@.len() != "--paused"@.len());
    reveal_strlit("--reinforce");
    assert("--rocks"@.len() != "--reinforce"@.len());
}

/// `--rocks N` alone, for a numeral N, sets `rocks` to N, and nothing else;
/// anything else is refused with the flag's usage.
pub proof fn law_flag_rocks(v: Seq<char>)
    ensures
        spec_parse_unsigned(v, usize::MAX as nat) matches Some(n) ==> spec_parse(seq!["--rocks"@, v])
            == Ok::<ArgsView, ArgErrorView>((ArgsView { rocks: n as usize, ..spec_defaults() })),
        spec_parse_unsigned(v, usize::MAX as nat) is None ==> spec_parse(seq!["--rocks"@, v])
            == Err::<ArgsView, ArgErrorView>(ArgErrorView::BadValue("--rocks N"@)),
{
    lemma_arm_rocks(spec_defaults(), v);
    reveal_with_fuel(parse_from, 2);
    assert(seq!["--rocks"@, v][0] == "--rocks"@);
    assert(seq!["--rocks"@, v][1] == v);
}

/// `--launch-delay` is matched by its own arm: none of the flags before it is `--launch-delay`.
proof fn lemma_arm_launch_delay(a: ArgsView, v: Seq<char>)
    ensures
        step(a, "--launch-delay"@, v) == step_8(a, "--launch-delay"@, v),
{
    reveal_strlit("--launch-delay");
    reveal_strlit("--headless");
    assert("--launch-delay"@.len() != "--headless"@.len());
    reveal_strlit("--motes");
    assert("--launch-delay"@.len() != "--motes"@.len());
    reveal_strlit("--hull");
    assert("--launch-delay"@.len() != "--hull"@.len());
    reveal_strlit("--out");
    assert("--launch-delay"@.len() != "--out"@.len());
    reveal_strlit("--frames");
    assert("--launch-delay"@.len() != "--frames"@.len());
    reveal_strlit("--zoom");
    assert("--launch-delay"@.len() != "--zoom"@.len());
    reveal_strlit("--target");
    assert("--launch-delay"@.len() != "--target"@.len());
    reveal_strlit("--size");
    assert("--launch-delay"@.len() != "--size"@.len());
    reveal_strlit("--chewers");
    assert("--launch-delay"@.len() != "--chewers"@.len());
    reveal_strlit("--view");
    assert("--launch-delay"@.len() != "--view"@.len());
    reveal_strlit("--panel");
    assert("--launch-delay"@.len() != "--panel"@.len());
    reveal_strlit("--build");
    assert("--launch-delay"@.len() != "--build"@.len());
    reveal_strlit("--wreck");
    assert("--launch-delay"@.len() != "--wreck"@.len());
    reveal_strlit("--explode");
    assert("--launch-delay"@.len() != "--explode"@.len());
    reveal_strlit("--cadence");
    assert("--launch-delay"@.len() != "--cadence"@.len());
    reveal_strlit("--fixed-dt");
    assert("--launch-delay"@.len() != "--fixed-dt"@.len());
    reveal_strlit("--screen");
    assert("--launch-delay"@.len() != "--screen"@.len());
    reveal_strlit("--sandbox");
    assert("--launch-delay"@.len() != "--sandbox"@.len());
    reveal_strlit("--retreat");
    assert("--launch-delay"@.len() != "--retreat"@.len());
    reveal_strlit("--base");
    assert("--launch-delay"@.len() != "--base"@.len());
    reveal_strlit("--run-seed");
    assert("--launch-delay"@.len() != "--run-seed"@.len());
    reveal_strlit("--job");
    assert("--launch-delay"@.len() != "--job"@.len());
    reveal_strlit("--onward");
    assert("--launch-delay"@.len() != "--onward"@.len());
    reveal_strlit("--jump");
    assert("--launch-delay"@.len() != "--jump"@.len());
    reveal_strlit("--support");
    assert("--launch-delay"@.len() != "--support"@.len());
    reveal_strlit("--play");
    assert("--launch-delay"@.len() != "--play"@.len());
    reveal_strlit("--target-hull");
    assert("--launch-delay"@.len() != "--target-hull"@.len());
    reveal_strlit("--seed");
    assert("--launch-delay"@.len() != "--seed"@.len());
    reveal_strlit("--stand");
    assert("--launch-delay"@.len() != "--stand"@.len());
    reveal_strlit("--fire");
    assert("--launch-delay"@.len() != "--fire"@.len());
    reveal_strlit("--blast");
    assert("--launch-delay"@.len() != "--blast"@.len());
    reveal_strlit("--hives");
    assert("--launch-delay"@.len() != "--hives"@.len());
    reveal_strlit("--move");
    assert("--launch-delay"@.len() != "--move"@.len());
    reveal_strlit("--aim");
    assert("--launch-delay"@.len() != "--aim"@.len());
    reveal_strlit("--showcase");
    assert("--launch-delay"@.len() != "--showcase"@.len());
    reveal_strlit("--hud");
    assert("--launch-delay"@.len() != "--hud"@.len());
    reveal_strlit("--watch-craft");
    assert("--launch-delay"@.len() != "--watch-craft"@.len());
    reveal_strlit("--yaw");
    assert("--launch-delay"@.len() != "--yaw"@.len());
    reveal_strlit("--pitch");
    assert("--launch-delay"@.len() != "--pitch"@.len());
    reveal_strlit("--paused");
    assert("--launch-delay"@.len() != "--paused"@.len());
    reveal_strlit("--reinforce");
    assert("--launch-delay"@.len() != "--reinforce"@.len());
    reveal_strlit("--rocks");
    assert("--launch-delay"@.len() != "--rocks"@.len());
}

/// `--launch-delay TEXT` alone keeps the text as `launch_delay` and records it as given, and nothing else.
pub proof fn law_flag_launch_delay(v: Seq<char>)
    ensures
        spec_parse(seq!["--launch-delay"@, v]) == Ok::<ArgsView, ArgErrorView>((ArgsView { launch_delay: Some(v), delay_set: true, ..spec_defaults() })),
{
    lemma_arm_launch_delay(spec_defaults(), v);
    reveal_with_fuel(parse_from, 2);
    assert(seq!["--launch-delay"@, v][0] == "--launch-delay"@);
    assert(seq!["--launch-delay"@, v][1] == v);
}

/// `--fighters` is matched by its own arm: none of the flags before it is `--fighters`.
proof fn lemma_arm_fighters(a: ArgsView, v: Seq<char>)
    ensures
        step(a, "--fighters"@, v) == step_8(a, "--fighters"@, v),
        "--fighters"@ != "--launch-delay"@,
{
    reveal_strlit("--fighters");
    reveal_strlit("--headless");
    assert("--fighters"@[2] != "--headless"@[2]);
    reveal_strlit("--motes");
    assert("--fighters"@.len() != "--motes"@.len());
    reveal_strlit("--hull");
    assert("--fighters"@.len() != "--hull"@.len());
    reveal_strlit("--out");
    assert("--fighters"@.len() != "--out"@.len());
    reveal_strlit("--frames");
    assert("--fighters"@.len() != "--frames"@.len());
    reveal_strlit("--zoom");
    assert("--fighters"@.len() != "--zoom"@.len());
    reveal_strlit("--target");
    assert("--fighters"@.len() != "--target"@.len());
    reveal_strlit("--size");
    assert("--fighters"@.len() != "--size"@.len());
    reveal_strlit("--chewers");
    assert("--fighters"@.len() != "--chewers"@.len());
    reveal_strlit("--view");
    assert("--fighters"@.len() != "--view"@.len());
    reveal_strlit("--panel");
    assert("--fighters"@.len() != "--panel"@.len());
    reveal_strlit("--build");
    assert("--fighters"@.len() != "--build"@.len());
    reveal_strlit("--wreck");
    assert("--fighters"@.len() != "--wreck"@.len());
    reveal_strlit("--explode");
    assert("--fighters"@.len() != "--explode"@.len());
    reveal_strlit("--cadence");
    assert("--fighters"@.len() != "--cadence"@.len());
    reveal_strlit("--fixed-dt");
    assert("--fighters"@[4] != "--fixed-dt"@[4]);
    reveal_strlit("--screen");
    assert("--fighters"@.len() != "--screen"@.len());
    reveal_strlit("--sandbox");
    assert("--fighters"@.len() != "--sandbox"@.len());
    reveal_strlit("--retreat");
    assert("--fighters"@.len() != "--retreat"@.len());
    reveal_strlit("--base");
    assert("--fighters"@.len() != "--base"@.len());
    reveal_strlit("--run-seed");
    assert("--fighters"@[2] != "--run-seed"@[2]);
    reveal_strlit("--job");
    assert("--fighters"@.len() != "--job"@.len());
    reveal_strlit("--onward");
    assert("--fighters"@.len() != "--onward"@.len());
    reveal_strlit("--jump");
    assert("--fighters"@.len() != "--jump"@.len());
    reveal_strlit("--support");
    assert("--fighters"@.len() != "--support"@.len());
    reveal_strlit("--play");
    assert("--fighters"@.len() != "--play"@.len());
    reveal_strlit("--target-hull");
    assert("--fighters"@.len() != "--target-hull"@.len());
    reveal_strlit("--seed");
    assert("--fighters"@.len() != "--seed"@.len());
    reveal_strlit("--stand");
    assert("--fighters"@.len() != "--stand"@.len());
    reveal_strlit("--fire");
    assert("--fighters"@.len() != "--fire"@.len());
    reveal_strlit("--blast");
    assert("--fighters"@.len() != "--blast"@.len());
    reveal_strlit("--hives");
    assert("--fighters"@.len() != "--hives"@.len());
    reveal_strlit("--move");
    assert("--fighters"@.len() != "--move"@.len());
    reveal_strlit("--aim");
    assert("--fighters"@.len() != "--aim"@.len());
    reveal_strlit("--showcase");
    assert("--fighters"@[2] != "--showcase"@[2]);
    reveal_strlit("--hud");
    assert("--fighters"@.len() != "--hud"@.len());
    reveal_strlit("--watch-craft");
    assert("--fighters"@.len() != "--watch-craft"@.len());
    reveal_strlit("--yaw");
    assert("--fighters"@.len() != "--yaw"@.len());
    reveal_strlit("--pitch");
    assert("--fighters"@.len() != "--pitch"@.len());
    reveal_strlit("--paused");
    assert("--fighters"@.len() != "--paused"@.len());
    reveal_strlit("--reinforce");
    assert("--fighters"@.len() != "--reinforce"@.len());
    reveal_strlit("--rocks");
    assert("--fighters"@.len() != "--rocks"@.len());
    reveal_strlit("--launch-delay");
    assert("--fighters"@.len() != "--launch-delay"@.len());
}

/// `--fighters N` alone, for a numeral N, sets `fighters` to N, and nothing else;
/// anything else is refused with the flag's usage.
pub proof fn law_flag_fighters(v: Seq<char>)
    ensures
        spec_parse_unsigned(v, u32::MAX as nat) matches Some(n) ==> spec_parse(seq!["--fighters"@, v])
            == Ok::<ArgsView, ArgErrorView>((ArgsView { fighters: n as u32, ..spec_defaults() })),
        spec_parse_unsigned(v, u32::MAX as nat) is None ==> spec_parse(seq!["--fighters"@, v])
            == Err::<ArgsView, ArgErrorView>(ArgErrorView::BadValue("--fighters N"@)),
{
    lemma_arm_fighters(spec_defaults(), v);
    reveal_with_fuel(parse_from, 2);
    assert(seq!["--fighters"@, v][0] == "--fighters"@);
    assert(seq!["--fighters"@, v][1] == v);
}

/// `--fps` is matched by its own arm: none of the flags before it is `--fps`.
proof fn lemma_arm_fps(a: ArgsView, v: Seq<char>)
    ensures
        step(a, "--fps"@, v) == step_8(a, "--fps"@, v),
        "--fps"@ != "--launch-delay"@,
        "--fps"@ != "--fighters"@,
{
    reveal_strlit("--fps");
    reveal_strlit("--headless");
    assert("--fps"@.len() != "--headless"@.len());
    reveal_strlit("--motes");
    assert("--fps"@.len() != "--motes"@.len());
    reveal_strlit("--hull");
    assert("--fps"@.len() != "--hull"@.len());
    reveal_strlit("--out");
    assert("--fps"@[2] != "--out"@[2]);
    reveal_strlit("--frames");
    assert("--fps"@.len() != "--frames"@.len());
    reveal_strlit("--zoom");
    assert("--fps"@.len() != "--zoom"@.len());
    reveal_strlit("--target");
    assert("--fps"@.len() != "--target"@.len());
    reveal_strlit("--size");
    assert("--fps"@.len() != "--size"@.len());
    reveal_strlit("--chewers");
    assert("--fps"@.len() != "--chewers"@.len());
    reveal_strlit("--view");
    assert("--fps"@.len() != "--view"@.len());
    reveal_strlit("--panel");
    assert("--fps"@.len() != "--panel"@.len());
    reveal_strlit("--build");
    assert("--fps"@.len() != "--build"@.len());
    reveal_strlit("--wreck");
    assert("--fps"@.len() != "--wreck"@.len());
    reveal_strlit("--explode");
    assert("--fps"@.len() != "--explode"@.len());
    reveal_strlit("--cadence");
    assert("--fps"@.len() != "--cadence"@.len());
    reveal_strlit("--fixed-dt");
    assert("--fps"@.len() != "--fixed-dt"@.len());
    reveal_strlit("--screen");
    assert("--fps"@.len() != "--screen"@.len());
    reveal_strlit("--sandbox");
    assert("--fps"@.len() != "--sandbox"@.len());
    reveal_strlit("--retreat");
    assert("--fps"@.len() != "--retreat"@.len());
    reveal_strlit("--base");
    assert("--fps"@.len() != "--base"@.len());
    reveal_strlit("--run-seed");
    assert("--fps"@.len() != "--run-seed"@.len());
    reveal_strlit("--job");
    assert("--fps"@[2] != "--job"@[2]);
    reveal_strlit("--onward");
    assert("--fps"@.len() != "--onward"@.len());
    reveal_strlit("--jump");
    assert("--fps"@.len() != "--jump"@.len());
    reveal_strlit("--support");
    assert("--fps"@.len() != "--support"@.len());
    reveal_strlit("--play");
    assert("--fps"@.len() != "--play"@.len());
    reveal_strlit("--target-hull");
    assert("--fps"@.len() != "--target-hull"@.len());
    reveal_strlit("--seed");
    assert("--fps"@.len() != "--seed"@.len());
    reveal_strlit("--stand");
    assert("--fps"@.len() != "--stand"@.len());
    reveal_strlit("--fire");
    assert("--fps"@.len() != "--fire"@.len());
    reveal_strlit("--blast");
    assert("--fps"@.len() != "--blast"@.len());
    reveal_strlit("--hives");
    assert("--fps"@.len() != "--hives"@.len());
    reveal_strlit("--move");
    assert("--fps"@.len() != "--move"@.len());
    reveal_strlit("--aim");
    assert("--fps"@[2] != "--aim"@[2]);
    reveal_strlit("--showcase");
    assert("--fps"@.len() != "--showcase"@.len());
    reveal_strlit("--hud");
    assert("--fps"@[2] != "--hud"@[2]);
    reveal_strlit("--watch-craft");
    assert("--fps"@.len() != "--watch-craft"@.len());
    reveal_strlit("--yaw");
    assert("--fps"@[2] != "--yaw"@[2]);
    reveal_strlit("--pitch");
    assert("--fps"@.len() != "--pitch"@.len());
    reveal_strlit("--paused");
    assert("--fps"@.len() != "--paused"@.len());
    reveal_strlit("--reinforce");
    assert("--fps"@.len() != "--reinforce"@.len());
    reveal_strlit("--rocks");
    assert("--fps"@.len() != "--rocks"@.len());
    reveal_strlit("--launch-delay");
    assert("--fps"@.len() != "--launch-delay"@.len());
    reveal_strlit("--fighters");
    assert("--fps"@.len() != "--fighters"@.len());
}

/// `--fps N` alone, for a numeral N, sets `fps` to N, and nothing else;
/// anything else is refused with the flag's usage.
pub proof fn law_flag_fps(v: Seq<char>)
    ensures
        spec_parse_unsigned(v, u32::MAX as nat) matches Some(n) ==> spec_parse(seq!["--fps"@, v])
            == Ok::<ArgsView, ArgErrorView>((ArgsView { fps: n as u32, ..spec_defaults() })),
        spec_parse_unsigned(v, u32::MAX as nat) is None ==> spec_parse(seq!["--fps"@, v])
            == Err::<ArgsView, ArgErrorView>(ArgErrorView::BadValue("--fps N, or 0 for no cap"@)),
{
    lemma_arm_fps(spec_defaults(), v);
    reveal_with_fuel(parse_from, 2);
    assert(seq!["--fps"@, v][0] == "--fps"@);
    assert(seq!["--fps"@, v][1] == v);
}

/// `--thickness` is matched by its own arm: none of the flags before it is `--thickness`.
proof fn lemma_arm_thickness(a: ArgsView, v: Seq<char>)
    ensures
        step(a, "--thickness"@, v) == step_8(a, "--thickness"@, v),
        "--thickness"@ != "--launch-delay"@,
        "--thickness"@ != "--fighters"@,
        "--thickness"@ != "--fps"@,
{
    reveal_strlit("--thickness");
    reveal_strlit("--headless");
    assert("--thickness"@.len() != "--headless"@.len());
    reveal_strlit("--motes");
    assert("--thickness"@.len() != "--motes"@.len());
    reveal_strlit("--hull");
    assert("--thickness"@.len() != "--hull"@.len());
    reveal_strlit("--out");
    assert("--thickness"@.len() != "--out"@.len());
    reveal_strlit("--frames");
    assert("--thickness"@.len() != "--frames"@.len());
    reveal_strlit("--zoom");
    assert("--thickness"@.len() != "--zoom"@.len());
    reveal_strlit("--target");
    assert("--thickness"@.len() != "--target"@.len());
    reveal_strlit("--size");
    assert("--thickness"@.len() != "--size"@.len());
    reveal_strlit("--chewers");
    assert("--thickness"@.len() != "--chewers"@.len());
    reveal_strlit("--view");
    assert("--thickness"@.len() != "--view"@.len());
    reveal_strlit("--panel");
    assert("--thickness"@.len() != "--panel"@.len());
    reveal_strlit("--build");
    assert("--thickness"@.len() != "--build"@.len());
    reveal_strlit("--wreck");
    assert("--thickness"@.len() != "--wreck"@.len());
    reveal_strlit("--explode");
    assert("--thickness"@.len() != "--explode"@.len());
    reveal_strlit("--cadence");
    assert("--thickness"@.len() != "--cadence"@.len());
    reveal_strlit("--fixed-dt");
    assert("--thickness"@.len() != "--fixed-dt"@.len());
    reveal_strlit("--screen");
    assert("--thickness"@.len() != "--screen"@.len());
    reveal_strlit("--sandbox");
    assert("--thickness"@.len() != "--sandbox"@.len());
    reveal_strlit("--retreat");
    assert("--thickness"@.len() != "--retreat"@.len());
    reveal_strlit("--base");
    assert("--thickness"@.len() != "--base"@.len());
    reveal_strlit("--run-seed");
    assert("--thickness"@.len() != "--run-seed"@.len());
    reveal_strlit("--job");
    assert("--thickness"@.len() != "--job"@.len());
    reveal_strlit("--onward");
    assert("--thickness"@.len() != "--onward"@.len());
    reveal_strlit("--jump");
    assert("--thickness"@.len() != "--jump"@.len());
    reveal_strlit("--support");
    assert("--thickness"@.len() != "--support"@.len());
    reveal_strlit("--play");
    assert("--thickness"@.len() != "--play"@.len());
    reveal_strlit("--target-hull");
    assert("--thickness"@.len() != "--target-hull"@.len());
    reveal_strlit("--seed");
    assert("--thickness"@.len() != "--seed"@.len());
    reveal_strlit("--stand");
    assert("--thickness"@.len() != "--stand"@.len());
    reveal_strlit("--fire");
    assert("--thickness"@.len() != "--fire"@.len());
    reveal_strlit("--blast");
    assert("--thickness"@.len() != "--blast"@.len());
    reveal_strlit("--hives");
    assert("--thickness"@.len() != "--hives"@.len());
    reveal_strlit("--move");
    assert("--thickness"@.len() != "--move"@.len());
    reveal_strlit("--aim");
    assert("--thickness"@.len() != "--aim"@.len());
    reveal_strlit("--showcase");
    assert("--thickness"@.len() != "--showcase"@.len());
    reveal_strlit("--hud");
    assert("--thickness"@.len() != "--hud"@.len());
    reveal_strlit("--watch-craft");
    assert("--thickness"@.len() != "--watch-craft"@.len());
    reveal_strlit("--yaw");
    assert("--thickness"@.len() != "--yaw"@.len());
    reveal_strlit("--pitch");
    assert("--thickness"@.len() != "--pitch"@.len());
    reveal_strlit("--paused");
    assert("--thickness"@.len() != "--paused"@.len());
    reveal_strlit("--reinforce");
    assert("--thickness"@[2] != "--reinforce"@[2]);
    reveal_strlit("--rocks");
    assert("--thickness"@.len() != "--rocks"@.len());
    reveal_strlit("--launch-delay");
    assert("--thickness"@.len() != "--launch-delay"@.len());
    reveal_strlit("--fighters");
    assert("--thickness"@.len() != "--fighters"@.len());
    reveal_strlit("--fps");
    assert("--thickness"@.len() != "--fps"@.len());
}

/// `--thickness TEXT` alone keeps the text as `thickness`, and nothing else.
pub proof fn law_flag_thickness(v: Seq<char>)
    ensures
        spec_parse(seq!["--thickness"@, v]) == Ok::<ArgsView, ArgErrorView>((ArgsView { thickness: Some(v), ..spec_defaults() })),
{
    lemma_arm_thickness(spec_defaults(), v);
    reveal_with_fuel(parse_from, 2);
    assert(seq!["--thickness"@, v][0] == "--thickness"@);
    assert(seq!["--thickness"@, v][1] == v);
}

} // verus!
