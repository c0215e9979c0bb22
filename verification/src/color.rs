//! Deterministic temperature-to-color mapping.
//!
//! A reading is clamped to the frame's display bounds, normalized, sent
//! through the inverted hue ramp that wraps at two-thirds of the color
//! wheel, and converted from HSV (saturation and value both 0.9) to RGB.
//! Everything is exact rational arithmetic over the fixed-point scale; a
//! channel is reported in millionths, truncated.

use vstd::prelude::*;
use vstd::arithmetic::div_mod::{
    lemma_mod_division_less_than_divisor, lemma_multiply_divide_le, lemma_multiply_divide_lt,
};
use crate::fixed::TEMP_SCALE;
use crate::frame::{lemma_bounds_range, lemma_min_max, lemma_span, max8_of, min8_of, CameraCapture};

verus! {

/// Full intensity of one color channel.
pub const COLOR_SCALE: u32 = 1000000;

/// A color, each channel in `0 ..= COLOR_SCALE` millionths.
#[derive(Clone, Copy, Debug, PartialEq, Eq, Structural)]
pub struct Rgb {
    pub r: u32,
    pub g: u32,
    pub b: u32,
}

/// A reading clamped to the display bounds, fixed-point units.
pub open spec fn clamp8(t8: int, lo8: int, hi8: int) -> int {
    if t8 < lo8 {
        lo8
    } else if t8 > hi8 {
        hi8
    } else {
        t8
    }
}

/// Hue of the normalized value `num / den`, as a numerator over the
/// denominator `3 * den`: `2/3 - i` up to two-thirds, `5/3 - i` above it,
/// so the ramp runs backward from blue-green through red and wraps there.
pub open spec fn hue_num(num: int, den: int) -> int {
    if 3 * num > 2 * den {
        5 * den - 3 * num
    } else {
        2 * den - 3 * num
    }
}

/// HSV to RGB at saturation and value `9/10`, hue `hnum / hden`, channels
/// in truncated millionths. `k` is the sextant of the color wheel and `f`
/// the position inside it; the two moving channels are
/// `q = (9/10)(1 - (9/10)f)` and `t = (9/10)(1 - (9/10)(1 - f))`.
pub open spec fn rgb_of_hue(hnum: int, hden: int) -> (int, int, int) {
    let k = (6 * hnum) / hden;
    let f = (6 * hnum) % hden;
    let q = (10000 * (90 * hden - 81 * f)) / hden;
    let t = (10000 * (9 * hden + 81 * f)) / hden;
    if k == 0 {
        (900000, t, 90000)
    } else if k == 1 {
        (q, 900000, 90000)
    } else if k == 2 {
        (90000, 900000, t)
    } else if k == 3 {
        (90000, q, 900000)
    } else if k == 4 {
        (t, 90000, 900000)
    } else {
        (900000, 90000, q)
    }
}

/// The whole map, from display bounds (whole degrees) and a fixed-point
/// reading to a color.
pub open spec fn temp_color_spec(lower: int, upper: int, t8: int) -> (int, int, int) {
    let den = TEMP_SCALE * (upper - lower);
    let num = clamp8(t8, TEMP_SCALE * lower, TEMP_SCALE * upper) - TEMP_SCALE * lower;
    rgb_of_hue(hue_num(num, den), 3 * den)
}

/// The hue stays inside one turn of the wheel.
pub proof fn lemma_hue_range(num: int, den: int)
    requires
        den >= 1,
        0 <= num <= den,
    ensures
        0 <= hue_num(num, den) < 3 * den,
{
}

/// Continuity at the wrap: one fixed-point step of the normalized value
/// moves the hue by exactly three units of `1/(3*den)` — the width of that
/// same step — at every point of the ramp; crossing two-thirds it comes
/// back around the circle (`+ 3*den`) instead of jumping.
pub proof fn lemma_hue_wrap(num: int, den: int)
    requires
        den >= 1,
        0 <= num < den,
    ensures
        hue_num(num + 1, den) - hue_num(num, den) == -3 || hue_num(num + 1, den) - hue_num(
            num,
            den,
        ) == 3 * den - 3,
{
}

/// The ends of the scale color like the bounds themselves: clamping makes
/// the map constant below `lower` and above `upper`. With the map a pure
/// function of `(lower, upper, t8)`, equal readings get equal colors.
pub proof fn lemma_color_clamp(lower: int, upper: int, t8: int)
    requires
        lower < upper,
    ensures
        t8 <= TEMP_SCALE * lower ==> temp_color_spec(lower, upper, t8) == temp_color_spec(
            lower,
            upper,
            TEMP_SCALE * lower,
        ),
        t8 >= TEMP_SCALE * upper ==> temp_color_spec(lower, upper, t8) == temp_color_spec(
            lower,
            upper,
            TEMP_SCALE * upper,
        ),
{
}

/// Map a reading to its display color for this frame's bounds.
pub fn temp_to_color(capture: &CameraCapture, t8: i64) -> (c: Rgb)
    requires
        capture.wf(),
    ensures
        (c.r as int, c.g as int, c.b as int) == temp_color_spec(
            capture.lower_spec(),
            capture.upper_spec(),
            t8 as int,
        ),
        c.r <= COLOR_SCALE,
        c.g <= COLOR_SCALE,
        c.b <= COLOR_SCALE,
{
    proof {
        lemma_min_max(capture@);
        lemma_bounds_range(min8_of(capture@), max8_of(capture@));
        lemma_span(min8_of(capture@), max8_of(capture@));
    }
    let lower = capture.lower();
    let upper = capture.upper();
    let lo8: i64 = (lower as i64) * (TEMP_SCALE as i64);
    let hi8: i64 = (upper as i64) * (TEMP_SCALE as i64);
    let den: u64 = (hi8 - lo8) as u64;
    let t: i64 = t8;
    let tc: i64 = if t < lo8 {
        lo8
    } else if t > hi8 {
        hi8
    } else {
        t
    };
    let num: u64 = (tc - lo8) as u64;
    let hnum: u64 = if 3 * num > 2 * den {
        5 * den - 3 * num
    } else {
        2 * den - 3 * num
    };
    let hden: u64 = 3 * den;
    proof {
        lemma_hue_range(num as int, den as int);
    }
    let h6: u64 = 6 * hnum;
    let k: u64 = h6 / hden;
    let f: u64 = h6 % hden;
    proof {
        lemma_multiply_divide_lt(h6 as int, hden as int, 6);
        lemma_mod_division_less_than_divisor(h6 as int, hden as int);
    }
    let qn: u64 = 10000 * (90 * hden - 81 * f);
    let q: u64 = qn / hden;
    let tn: u64 = 10000 * (9 * hden + 81 * f);
    let tv: u64 = tn / hden;
    proof {
        lemma_multiply_divide_le(qn as int, hden as int, 900000);
        lemma_multiply_divide_le(tn as int, hden as int, 900000);
    }
    if k == 0 {
        Rgb { r: 900000, g: tv as u32, b: 90000 }
    } else if k == 1 {
        Rgb { r: q as u32, g: 900000, b: 90000 }
    } else if k == 2 {
        Rgb { r: 90000, g: 900000, b: tv as u32 }
    } else if k == 3 {
        Rgb { r: 90000, g: q as u32, b: 900000 }
    } else if k == 4 {
        Rgb { r: tv as u32, g: 90000, b: 900000 }
    } else {
        Rgb { r: 900000, g: 90000, b: q as u32 }
    }
}

} // verus!
