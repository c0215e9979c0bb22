//! What the presentation surfaces paint: the per-cell colors of the
//! heat-map (x-mirrored, with the checkerboard placeholder before the first
//! frame) and the color of each legend row. Consumers hand these straight
//! to a rectangle-painting surface.

use vstd::prelude::*;
use vstd::arithmetic::div_mod::{lemma_mod_division_less_than_divisor, lemma_multiply_divide_lt};
use crate::color::{temp_color_spec, temp_to_color, Rgb};
use crate::fixed::TEMP_SCALE;
use crate::frame::CameraCapture;
use crate::grid::{GRID_CELLS, GRID_HEIGHT, GRID_WIDTH};

verus! {

/// Color of heat-map cell `i` of a frame: the mirrored column's reading
/// through the color map (the heat-map is drawn x-mirrored, as the source
/// convention has it).
pub open spec fn rendered_cell_spec(c: CameraCapture, i: int) -> (int, int, int) {
    let x = i % (GRID_WIDTH as int);
    let y = i / (GRID_WIDTH as int);
    temp_color_spec(
        c.lower_spec(),
        c.upper_spec(),
        c@[(GRID_WIDTH - 1 - x) + y * (GRID_WIDTH as int)] as int,
    )
}

/// Checkerboard placeholder cell: white and black alternating, well defined
/// and distinct from any temperature frame.
pub open spec fn placeholder_cell_spec(i: int) -> (int, int, int) {
    let x = i % (GRID_WIDTH as int);
    let y = i / (GRID_WIDTH as int);
    if (x + y) % 2 == 0 {
        (1000000, 1000000, 1000000)
    } else {
        (0, 0, 0)
    }
}

/// The full heat-map, one color per cell, row-major; the placeholder until
/// a first frame exists.
pub fn render_cells(last: &Option<CameraCapture>) -> (v: Vec<Rgb>)
    requires
        *last matches Some(c) ==> c.wf() && c@.len() == GRID_CELLS,
    ensures
        v@.len() == GRID_CELLS,
        forall|i: int|
            0 <= i < GRID_CELLS ==> {
                let px = #[trigger] v@[i];
                (px.r as int, px.g as int, px.b as int) == match *last {
                    Option::Some(c) => rendered_cell_spec(c, i),
                    Option::None => placeholder_cell_spec(i),
                }
            },
{
    let mut v: Vec<Rgb> = Vec::new();
    let mut idx: usize = 0;
    while idx < GRID_CELLS
        invariant
            idx <= GRID_CELLS,
            v@.len() == idx,
            *last matches Some(c) ==> c.wf() && c@.len() == GRID_CELLS,
            forall|i: int|
                0 <= i < idx ==> {
                    let px = #[trigger] v@[i];
                    (px.r as int, px.g as int, px.b as int) == match *last {
                        Option::Some(c) => rendered_cell_spec(c, i),
                        Option::None => placeholder_cell_spec(i),
                    }
                },
        decreases GRID_CELLS - idx,
    {
        let x = idx % GRID_WIDTH;
        let y = idx / GRID_WIDTH;
        proof {
            lemma_mod_division_less_than_divisor(idx as int, GRID_WIDTH as int);
            lemma_multiply_divide_lt(idx as int, GRID_WIDTH as int, GRID_HEIGHT as int);
        }
        let px = match last {
            Some(capture) => {
                let t8 = capture.at((GRID_WIDTH - 1 - x) + y * GRID_WIDTH);
                temp_to_color(capture, t8 as i64)
            },
            None => {
                if (x + y) % 2 == 0 {
                    Rgb { r: 1000000, g: 1000000, b: 1000000 }
                } else {
                    Rgb { r: 0, g: 0, b: 0 }
                }
            },
        };
        v.push(px);
        idx = idx + 1;
    }
    v
}

/// Temperature of legend row `y` of `height`: the top row shows `upper`,
/// rows below descend linearly toward `lower`, truncated to fixed-point.
pub open spec fn legend_temp8(lower: int, upper: int, y: int, height: int) -> int {
    TEMP_SCALE * upper - (TEMP_SCALE * (upper - lower) * y) / height
}

/// One color per legend row for a frame's bounds.
pub fn legend_colors(capture: &CameraCapture, height: i32) -> (v: Vec<Rgb>)
    requires
        capture.wf(),
        1 <= height <= 1000000,
    ensures
        v@.len() == height,
        forall|y: int|
            0 <= y < height ==> {
                let px = #[trigger] v@[y];
                (px.r as int, px.g as int, px.b as int) == temp_color_spec(
                    capture.lower_spec(),
                    capture.upper_spec(),
                    legend_temp8(capture.lower_spec(), capture.upper_spec(), y, height as int),
                )
            },
{
    proof {
        crate::frame::lemma_min_max(capture@);
        crate::frame::lemma_bounds_range(
            crate::frame::min8_of(capture@),
            crate::frame::max8_of(capture@),
        );
        crate::frame::lemma_span(crate::frame::min8_of(capture@), crate::frame::max8_of(capture@));
    }
    let lower = capture.lower();
    let upper = capture.upper();
    let hi8: i64 = (upper as i64) * (TEMP_SCALE as i64);
    let range8: i64 = hi8 - (lower as i64) * (TEMP_SCALE as i64);
    let mut v: Vec<Rgb> = Vec::new();
    let mut y: i32 = 0;
    while y < height
        invariant
            0 <= y <= height,
            v@.len() == y,
            capture.wf(),
            1 <= height <= 1000000,
            hi8 == TEMP_SCALE * capture.upper_spec(),
            range8 == TEMP_SCALE * (capture.upper_spec() - capture.lower_spec()),
            40 <= range8 <= 4294967320,
            -2147483680 <= TEMP_SCALE * capture.lower_spec(),
            hi8 <= 2147483680,
            forall|i: int|
                0 <= i < y ==> {
                    let px = #[trigger] v@[i];
                    (px.r as int, px.g as int, px.b as int) == temp_color_spec(
                        capture.lower_spec(),
                        capture.upper_spec(),
                        legend_temp8(capture.lower_spec(), capture.upper_spec(), i, height as int),
                    )
                },
        decreases height - y,
    {
        proof {
            vstd::arithmetic::mul::lemma_mul_nonnegative(range8 as int, y as int);
            vstd::arithmetic::mul::lemma_mul_upper_bound(
                range8 as int,
                4294967320,
                y as int,
                1000000,
            );
        }
        let drop: u64 = ((range8 * (y as i64)) as u64) / (height as u64);
        proof {
            vstd::arithmetic::div_mod::lemma_div_pos_is_pos(range8 * (y as int), height as int);
            vstd::arithmetic::div_mod::lemma_div_nonincreasing(range8 * (y as int), height as int);
        }
        let t8: i64 = hi8 - (drop as i64);
        let px = temp_to_color(capture, t8);
        v.push(px);
        y = y + 1;
    }
    v
}

} // verus!
