//! The fixed sensor grid and the pointer-to-cell projection.

use vstd::prelude::*;
use crate::fixed::{div_trunc, tdiv};
use crate::frame::CameraCapture;

verus! {

/// Grid columns.
pub const GRID_WIDTH: usize = 32;

/// Grid rows.
pub const GRID_HEIGHT: usize = 24;

/// Cells per frame, row-major: index = x + y * GRID_WIDTH.
pub const GRID_CELLS: usize = GRID_WIDTH * GRID_HEIGHT;

/// Cell index under a pointer: surface coordinates are projected onto grid
/// coordinates by truncating division, and an index outside the buffer (or
/// no recorded position at all) is an absent result, not an error.
pub open spec fn cursor_index_spec(pos: Option<(i32, i32)>, sw: int, sh: int) -> Option<int> {
    match pos {
        Option::None => Option::None,
        Option::Some((px, py)) => {
            let x = tdiv(px * GRID_WIDTH, sw);
            let y = tdiv(py * GRID_HEIGHT, sh);
            let idx = x + y * GRID_WIDTH;
            if 0 <= idx < GRID_CELLS {
                Option::Some(idx)
            } else {
                Option::None
            }
        },
    }
}

/// Project the last known pointer position onto the grid.
pub fn index_at_cursor(pos: Option<(i32, i32)>, width: i32, height: i32) -> (r: Option<usize>)
    requires
        width >= 1,
        height >= 1,
    ensures
        r == match cursor_index_spec(pos, width as int, height as int) {
            Option::None => Option::<usize>::None,
            Option::Some(i) => Option::Some(i as usize),
        },
{
    match pos {
        None => None,
        Some((px, py)) => {
            let x: i64 = div_trunc((px as i64) * (GRID_WIDTH as i64), width as i64);
            let y: i64 = div_trunc((py as i64) * (GRID_HEIGHT as i64), height as i64);
            let idx: i64 = x + y * (GRID_WIDTH as i64);
            if 0 <= idx && idx < GRID_CELLS as i64 {
                Some(idx as usize)
            } else {
                None
            }
        },
    }
}

/// Temperature under the pointer: the addressed cell of the last frame, or
/// `None` while no frame or no position is known or the index is outside
/// the buffer.
pub fn temp_at_cursor(
    last: &Option<CameraCapture>,
    pos: Option<(i32, i32)>,
    width: i32,
    height: i32,
) -> (r: Option<i32>)
    requires
        width >= 1,
        height >= 1,
    ensures
        r == match *last {
            Option::None => Option::<i32>::None,
            Option::Some(c) => match cursor_index_spec(pos, width as int, height as int) {
                Option::None => Option::<i32>::None,
                Option::Some(i) => if i < c@.len() {
                    Option::Some(c@[i])
                } else {
                    Option::<i32>::None
                },
            },
        },
{
    match last {
        None => None,
        Some(capture) => match index_at_cursor(pos, width, height) {
            None => None,
            Some(idx) => capture.get(idx),
        },
    }
}

} // verus!
