//! What a run with no window says when it is done: the one thing a picture of
//! a retreat cannot show. A shaft in a rock and a bank that moved look the
//! same in a still frame as a miner that never arrived.

use vstd::prelude::*;
use crate::bank::{Bank, JUMP_FUEL};
use crate::text::{append_chars, chars_of, decimal, decimal_of, string_of};

verus! {

broadcast use vstd::string::group_string_axioms;

/// A rock in the field, as the report reads it.
#[derive(Clone, Copy, PartialEq, Eq, Debug, Structural)]
pub struct RockFact {
    /// Its seam is ice rather than ore.
    pub ice: bool,
    /// How many seam cells are left in it.
    pub seam: u32,
}

/// The seam cells left in the rocks, ore and ice apart.
pub open spec fn seams_left(rocks: Seq<RockFact>) -> (nat, nat)
    decreases rocks.len(),
{
    if rocks.len() == 0 {
        (0, 0)
    } else {
        let (ore, ice) = seams_left(rocks.drop_last());
        let r = rocks.last();
        if r.ice {
            (ore, ice + r.seam as nat)
        } else {
            (ore + r.seam as nat, ice)
        }
    }
}

/// The line itself.
pub open spec fn spec_retreat_line(rocks: Seq<RockFact>, bank: Bank) -> Seq<char> {
    "retreat: "@ + decimal(rocks.len()) + " rocks with "@ + decimal(seams_left(rocks).0)
        + " ore and "@ + decimal(seams_left(rocks).1) + " ice left in them; banked "@ + decimal(
        bank.materials as nat,
    ) + " materials, "@ + decimal(bank.volatiles as nat) + " volatiles, "@ + decimal(
        bank.data as nat,
    ) + " data, "@ + decimal(bank.fuel as nat) + ".0 fuel of "@ + decimal(JUMP_FUEL as nat)
}

proof fn lemma_seams_grow(rocks: Seq<RockFact>, i: int)
    requires
        0 <= i <= rocks.len(),
    ensures
        seams_left(rocks.take(i)).0 <= seams_left(rocks).0,
        seams_left(rocks.take(i)).1 <= seams_left(rocks).1,
    decreases rocks.len() - i,
{
    if i < rocks.len() {
        lemma_seams_grow(rocks, i + 1);
        assert(rocks.take(i + 1).drop_last() =~= rocks.take(i));
    } else {
        assert(rocks.take(i) =~= rocks);
    }
}

/// Add up the seams left, ore and ice apart.
fn count_seams(rocks: &Vec<RockFact>) -> (r: (u32, u32))
    requires
        seams_left(rocks@).0 <= u32::MAX,
        seams_left(rocks@).1 <= u32::MAX,
    ensures
        r.0 == seams_left(rocks@).0,
        r.1 == seams_left(rocks@).1,
{
    let mut ore: u32 = 0;
    let mut ice: u32 = 0;
    let mut i: usize = 0;
    while i < rocks.len()
        invariant
            i <= rocks@.len(),
            seams_left(rocks@).0 <= u32::MAX,
            seams_left(rocks@).1 <= u32::MAX,
            ore == seams_left(rocks@.take(i as int)).0,
            ice == seams_left(rocks@.take(i as int)).1,
        decreases rocks@.len() - i,
    {
        proof {
            assert(rocks@.take(i + 1).drop_last() =~= rocks@.take(i as int));
            lemma_seams_grow(rocks@, i + 1);
        }
        let r = rocks[i];
        if r.ice {
            ice = ice + r.seam;
        } else {
            ore = ore + r.seam;
        }
        i = i + 1;
    }
    assert(rocks@.take(rocks@.len() as int) =~= rocks@);
    (ore, ice)
}

/// What the retreat's loop actually did, for the report a headless run ends
/// with: the rocks still standing and what is left in them, and the bank. A
/// scene that is not a retreat has no such line.
pub fn retreat_line(retreat: bool, rocks: &Vec<RockFact>, bank: &Bank) -> (r: Option<String>)
    requires
        seams_left(rocks@).0 <= u32::MAX,
        seams_left(rocks@).1 <= u32::MAX,
    ensures
        !retreat ==> r is None,
        retreat ==> (r matches Some(line) && line@ == spec_retreat_line(rocks@, *bank)),
{
    if !retreat {
        return None;
    }
    let (ore, ice) = count_seams(rocks);
    let mut out = chars_of("retreat: ");
    append_chars(&mut out, &decimal_of(rocks.len() as u64));
    append_chars(&mut out, &chars_of(" rocks with "));
    append_chars(&mut out, &decimal_of(ore as u64));
    append_chars(&mut out, &chars_of(" ore and "));
    append_chars(&mut out, &decimal_of(ice as u64));
    append_chars(&mut out, &chars_of(" ice left in them; banked "));
    append_chars(&mut out, &decimal_of(bank.materials as u64));
    append_chars(&mut out, &chars_of(" materials, "));
    append_chars(&mut out, &decimal_of(bank.volatiles as u64));
    append_chars(&mut out, &chars_of(" volatiles, "));
    append_chars(&mut out, &decimal_of(bank.data as u64));
    append_chars(&mut out, &chars_of(" data, "));
    append_chars(&mut out, &decimal_of(bank.fuel as u64));
    append_chars(&mut out, &chars_of(".0 fuel of "));
    append_chars(&mut out, &decimal_of(JUMP_FUEL as u64));
    Some(string_of(&out))
}

/// Whether the pixel at `(x, y)` of an RGBA picture `w` wide is lit: its red,
/// green and blue add up to more than 60.
pub open spec fn pix_lit(data: Seq<u8>, w: int, x: int, y: int) -> bool {
    let o = (y * w + x) * 4;
    data[o] + data[o + 1] + data[o + 2] > 60
}

/// How many pixels of row `y`, from column `x0` up to `x1`, are lit.
pub open spec fn lit_row(data: Seq<u8>, w: int, y: int, x0: int, x1: int) -> nat
    decreases x1 - x0,
{
    if x1 <= x0 {
        0
    } else {
        lit_row(data, w, y, x0, x1 - 1) + if pix_lit(data, w, x1 - 1, y) {
            1nat
        } else {
            0nat
        }
    }
}

/// How many pixels of the rectangle of columns `x0..x1` and rows `y0..y1`
/// are lit.
pub open spec fn lit_rect(data: Seq<u8>, w: int, x0: int, x1: int, y0: int, y1: int) -> nat
    decreases y1 - y0,
{
    if y1 <= y0 {
        0
    } else {
        lit_rect(data, w, x0, x1, y0, y1 - 1) + lit_row(data, w, y1 - 1, x0, x1)
    }
}

/// Whether a headless run's picture passes: there is a picture at all
/// (`None` when the screenshot holds fewer bytes than `w` by `h` pixels of
/// four), more than one pixel in a hundred of it is lit, something is lit in
/// the middle (the middle third across, the middle half down), and every
/// texture loaded.
pub open spec fn spec_passes(data: Seq<u8>, w: int, h: int, textures_ok: bool) -> Option<bool> {
    if data.len() < w * h * 4 {
        None
    } else {
        Some(
            lit_rect(data, w, 0, w, 0, h) > (w * h) / 100 && lit_rect(
                data,
                w,
                w / 3,
                2 * w / 3,
                h / 4,
                3 * h / 4,
            ) > 0 && textures_ok,
        )
    }
}

proof fn lemma_pixel_in_picture(w: int, h: int, x: int, y: int)
    requires
        0 <= x < w,
        0 <= y < h,
    ensures
        (y * w + x) * 4 + 3 < w * h * 4 + 1,
        (y * w + x) * 4 + 2 < w * h * 4,
        0 <= (y * w + x) * 4,
{
    assert(y * w + x < h * w) by (nonlinear_arith)
        requires
            0 <= x < w,
            0 <= y < h,
    ;
    assert(h * w == w * h) by (nonlinear_arith);
    assert(0 <= y * w) by (nonlinear_arith)
        requires
            0 <= y,
            0 <= w,
    ;
}

/// Count the lit pixels of a rectangle of the picture.
fn count_lit(data: &Vec<u8>, w: usize, h: usize, x0: usize, x1: usize, y0: usize, y1: usize) -> (n: usize)
    requires
        x0 <= x1 <= w,
        y0 <= y1 <= h,
        w * h * 4 <= usize::MAX,
        data@.len() >= w * h * 4,
    ensures
        n == lit_rect(data@, w as int, x0 as int, x1 as int, y0 as int, y1 as int),
{
    let mut n: usize = 0;
    let mut y: usize = y0;
    while y < y1
        invariant
            x0 <= x1 <= w,
            y0 <= y <= y1 <= h,
            w * h * 4 <= usize::MAX,
            data@.len() >= w * h * 4,
            n == lit_rect(data@, w as int, x0 as int, x1 as int, y0 as int, y as int),
            n <= (y - y0) * w,
        decreases y1 - y,
    {
        let mut m: usize = 0;
        let mut x: usize = x0;
        while x < x1
            invariant
                x0 <= x <= x1 <= w,
                y0 <= y < y1 <= h,
                w * h * 4 <= usize::MAX,
                data@.len() >= w * h * 4,
                m == lit_row(data@, w as int, y as int, x0 as int, x as int),
                m <= x - x0,
            decreases x1 - x,
        {
            proof {
                lemma_pixel_in_picture(w as int, h as int, x as int, y as int);
            }
            let o = (y * w + x) * 4;
            if data[o] as u32 + data[o + 1] as u32 + data[o + 2] as u32 > 60 {
                m = m + 1;
            }
            x = x + 1;
        }
        proof {
            assert(n + m <= (y + 1 - y0) * w) by (nonlinear_arith)
                requires
                    n <= (y - y0) * w,
                    m <= x1 - x0,
                    x1 <= w,
                    x0 >= 0,
                    y >= y0,
            ;
            assert((y + 1 - y0) * w <= h * w) by (nonlinear_arith)
                requires
                    y + 1 <= h,
                    y0 >= 0,
                    w >= 0,
            ;
            assert(h * w <= w * h * 4) by (nonlinear_arith)
                requires
                    h >= 0,
                    w >= 0,
            ;
        }
        n = n + m;
        y = y + 1;
    }
    n
}

/// Whether a headless run's picture passes, or `None` when there is no
/// picture to judge. The run exits with an error unless it is `Some(true)`.
pub fn headless_passes(data: &Vec<u8>, w: usize, h: usize, textures_ok: bool) -> (r: Option<bool>)
    requires
        w * h * 4 <= usize::MAX,
        2 * w <= usize::MAX,
        3 * h <= usize::MAX,
    ensures
        r == spec_passes(data@, w as int, h as int, textures_ok),
{
    if data.len() < w * h * 4 {
        return None;
    }
    let all = count_lit(data, w, h, 0, w, 0, h);
    let mid = count_lit(data, w, h, w / 3, 2 * w / 3, h / 4, 3 * h / 4);
    Some(all > (w * h) / 100 && mid > 0 && textures_ok)
}

} // verus!
