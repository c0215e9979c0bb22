//! Captured frames and their per-frame auto-scaled display bounds.
//!
//! A raw frame is a vector of fixed-point cell temperatures. Wrapping it in a
//! [`CameraCapture`] computes `lower` and `upper`, the display bounds for
//! that frame alone: whole degrees, rounded outward to multiples of five by
//! the truncating-division rule, so that `upper - lower >= 5` always holds.

use vstd::prelude::*;
use vstd::arithmetic::div_mod::{
    lemma_div_denominator, lemma_fundamental_div_mod, lemma_mod_multiples_basic,
};
use crate::fixed::{div_trunc, lemma_tdiv_monotone, tdiv, TEMP_SCALE};

verus! {

/// Coldest cell of a frame, in fixed-point units.
pub open spec fn min8_of(s: Seq<i32>) -> int
    decreases s.len(),
{
    if s.len() <= 1 {
        if s.len() == 1 {
            s[0] as int
        } else {
            0
        }
    } else {
        let m = min8_of(s.drop_last());
        if (s.last() as int) < m {
            s.last() as int
        } else {
            m
        }
    }
}

/// Warmest cell of a frame, in fixed-point units.
pub open spec fn max8_of(s: Seq<i32>) -> int
    decreases s.len(),
{
    if s.len() <= 1 {
        if s.len() == 1 {
            s[0] as int
        } else {
            0
        }
    } else {
        let m = max8_of(s.drop_last());
        if (s.last() as int) > m {
            s.last() as int
        } else {
            m
        }
    }
}

/// Display lower bound, in whole degrees: the coldest reading truncated
/// toward zero to a degree, then truncated again to a multiple of five.
pub open spec fn lower_of(min8: int) -> int {
    5 * tdiv(tdiv(min8, TEMP_SCALE as int), 5)
}

/// Display upper bound, in whole degrees: one five-degree step above the
/// truncated warmest reading.
pub open spec fn upper_of(max8: int) -> int {
    5 * (tdiv(tdiv(max8, TEMP_SCALE as int), 5) + 1)
}

/// The extreme cells bound every cell and stay within `i32` range.
pub proof fn lemma_min_max(s: Seq<i32>)
    requires
        s.len() >= 1,
    ensures
        i32::MIN <= min8_of(s) <= max8_of(s) <= i32::MAX,
        forall|i: int| 0 <= i < s.len() ==> min8_of(s) <= #[trigger] (s[i] as int) <= max8_of(s),
    decreases s.len(),
{
    if s.len() > 1 {
        lemma_min_max(s.drop_last());
        assert forall|i: int| 0 <= i < s.len() implies min8_of(s) <= #[trigger] (s[i] as int)
            <= max8_of(s) by {
            if i < s.len() - 1 {
                assert(s.drop_last()[i] == s[i]);
                assert(min8_of(s.drop_last()) <= s.drop_last()[i] as int <= max8_of(
                    s.drop_last(),
                ));
            } else {
                assert(s[i] == s.last());
            }
        }
    }
}

/// Ranges of the bounds when the extremes come from `i32` cells; wide enough
/// for every later cast and multiplication.
pub proof fn lemma_bounds_range(min8: int, max8: int)
    requires
        i32::MIN <= min8,
        max8 <= i32::MAX,
    ensures
        -268435455 <= lower_of(min8),
        upper_of(max8) <= 268435460,
{
    lemma_tdiv_monotone(i32::MIN as int, min8, 8);
    lemma_tdiv_monotone(max8, i32::MAX as int, 8);
    assert(tdiv(i32::MIN as int, 8) == -268435456) by {
        assert(2147483648int / 8 == 268435456);
    }
    assert(tdiv(i32::MAX as int, 8) == 268435455) by {
        assert(2147483647int / 8 == 268435455);
    }
    lemma_tdiv_monotone(-268435456, tdiv(min8, 8), 5);
    lemma_tdiv_monotone(tdiv(max8, 8), 268435455, 5);
    assert(tdiv(-268435456, 5) == -53687091) by {
        assert(268435456int / 5 == 53687091);
    }
    assert(tdiv(268435455, 5) == 53687091) by {
        assert(268435455int / 5 == 53687091);
    }
}

/// A warmer extreme never gets the smaller bound: with `min8 <= max8` the
/// bounds are a proper, at-least-five-degree span.
pub proof fn lemma_span(min8: int, max8: int)
    requires
        min8 <= max8,
    ensures
        upper_of(max8) - lower_of(min8) >= 5,
{
    lemma_tdiv_monotone(min8, max8, 8);
    lemma_tdiv_monotone(tdiv(min8, 8), tdiv(max8, 8), 5);
}

/// Composition of the two truncations: dividing by eight and then by five
/// truncates like dividing by forty.
proof fn lemma_tdiv_40(v: int)
    ensures
        tdiv(tdiv(v, 8), 5) == tdiv(v, 40),
{
    if v >= 0 {
        lemma_div_denominator(v, 8, 5);
        vstd::arithmetic::div_mod::lemma_div_pos_is_pos(v, 8);
    } else {
        lemma_div_denominator(-v, 8, 5);
        vstd::arithmetic::div_mod::lemma_div_pos_is_pos(-v, 8);
    }
}

/// The auto-scale rule (the testable shape of the bounds): both bounds are
/// multiples of five, they span at least five degrees, and the upper bound
/// clears the warmest cell. The lower bound clears the coldest cell whenever
/// that cell is non-negative; truncation toward zero rounds a negative
/// reading the other way, so nothing is claimed there.
pub proof fn lemma_auto_scale(s: Seq<i32>)
    requires
        s.len() >= 1,
    ensures
        lower_of(min8_of(s)) % 5 == 0,
        upper_of(max8_of(s)) % 5 == 0,
        upper_of(max8_of(s)) - lower_of(min8_of(s)) >= 5,
        TEMP_SCALE * upper_of(max8_of(s)) > max8_of(s),
        min8_of(s) >= 0 ==> TEMP_SCALE * lower_of(min8_of(s)) <= min8_of(s),
{
    lemma_min_max(s);
    let m = min8_of(s);
    let bm = max8_of(s);
    lemma_span(m, bm);
    lemma_mod_multiples_basic(tdiv(tdiv(m, 8), 5), 5);
    lemma_mod_multiples_basic(tdiv(tdiv(bm, 8), 5) + 1, 5);
    lemma_tdiv_40(m);
    lemma_tdiv_40(bm);
    if bm >= 0 {
        lemma_fundamental_div_mod(bm, 40);
        vstd::arithmetic::div_mod::lemma_mod_division_less_than_divisor(bm, 40);
    } else {
        lemma_fundamental_div_mod(-bm, 40);
        vstd::arithmetic::div_mod::lemma_mod_division_less_than_divisor(-bm, 40);
    }
    if m >= 0 {
        lemma_fundamental_div_mod(m, 40);
        vstd::arithmetic::div_mod::lemma_mod_division_less_than_divisor(m, 40);
    }
}

/// The auto-scale rule at the level of a wrapped frame: its bounds are
/// multiples of five spanning at least five degrees, every cell lies at or
/// under the upper bound, and — for frames with no negative reading — at or
/// above the lower bound.
pub proof fn lemma_capture_auto_scale(c: CameraCapture)
    requires
        c.wf(),
    ensures
        c.lower_spec() % 5 == 0,
        c.upper_spec() % 5 == 0,
        c.upper_spec() - c.lower_spec() >= 5,
        forall|i: int|
            0 <= i < c@.len() ==> #[trigger] (c@[i] as int) < TEMP_SCALE * c.upper_spec(),
        min8_of(c@) >= 0 ==> forall|i: int|
            0 <= i < c@.len() ==> TEMP_SCALE * c.lower_spec() <= #[trigger] (c@[i] as int),
{
    lemma_auto_scale(c@);
    lemma_min_max(c@);
}

/// A captured frame with its display bounds. Readers only ever see a whole
/// value: it is built once per frame and replaced atomically.
pub struct CameraCapture {
    data: Vec<i32>,
    lower: i32,
    upper: i32,
}

impl View for CameraCapture {
    type V = Seq<i32>;

    closed spec fn view(&self) -> Seq<i32> {
        self.data@
    }
}

impl CameraCapture {
    /// Display lower bound, whole degrees.
    pub closed spec fn lower_spec(&self) -> int {
        self.lower as int
    }

    /// Display upper bound, whole degrees.
    pub closed spec fn upper_spec(&self) -> int {
        self.upper as int
    }

    /// The bounds are exactly the auto-scale of the held cells.
    pub open spec fn wf(&self) -> bool {
        self@.len() >= 1
        && self.lower_spec() == lower_of(min8_of(self@))
        && self.upper_spec() == upper_of(max8_of(self@))
    }

    /// Wrap a raw frame, scanning once for its extremes and deriving the
    /// display bounds by the truncating rule.
    pub fn new(data: Vec<i32>) -> (c: CameraCapture)
        requires
            data@.len() >= 1,
        ensures
            c.wf(),
            c@ == data@,
    {
        let mut min: i32 = data[0];
        let mut max: i32 = data[0];
        let mut i: usize = 1;
        while i < data.len()
            invariant
                1 <= i <= data@.len(),
                min == min8_of(data@.take(i as int)),
                max == max8_of(data@.take(i as int)),
            decreases data@.len() - i,
        {
            let v = data[i];
            if v < min {
                min = v;
            }
            if v > max {
                max = v;
            }
            i = i + 1;
            proof {
                assert(data@.take(i as int).drop_last() =~= data@.take(i as int - 1));
                assert(data@.take(i as int).last() == data@[i as int - 1]);
            }
        }
        proof {
            assert(data@.take(data@.len() as int) =~= data@);
            lemma_bounds_range(min as int, max as int);
            lemma_tdiv_monotone(min as int, max as int, 8);
            lemma_tdiv_monotone(tdiv(min as int, 8), tdiv(max as int, 8), 5);
        }
        let lower: i32 = (5 * div_trunc(div_trunc(min as i64, 8), 5)) as i32;
        let upper: i32 = (5 * (div_trunc(div_trunc(max as i64, 8), 5) + 1)) as i32;
        CameraCapture { data, lower, upper }
    }

    /// Display lower bound, whole degrees.
    pub fn lower(&self) -> (r: i32)
        ensures
            r as int == self.lower_spec(),
    {
        self.lower
    }

    /// Display upper bound, whole degrees.
    pub fn upper(&self) -> (r: i32)
        ensures
            r as int == self.upper_spec(),
    {
        self.upper
    }

    /// Number of cells.
    pub fn len(&self) -> (r: usize)
        ensures
            r == self@.len(),
    {
        self.data.len()
    }

    /// The cell at `index`, which must be inside the buffer.
    pub fn at(&self, index: usize) -> (r: i32)
        requires
            index < self@.len(),
        ensures
            r == self@[index as int],
    {
        self.data[index]
    }

    /// The cell at `index`, or `None` outside the buffer.
    pub fn get(&self, index: usize) -> (r: Option<i32>)
        ensures
            r == if index < self@.len() {
                Some(self@[index as int])
            } else {
                Option::<i32>::None
            },
    {
        if index < self.data.len() {
            Some(self.data[index])
        } else {
            None
        }
    }
}

} // verus!
