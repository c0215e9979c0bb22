//! The capture abstraction: the polymorphic source interface, the
//! deterministic mock source, and the sub-frame protocol of the hardware
//! source.
//!
//! The hardware driver itself lives outside the library (it is device I/O);
//! what is modelled here is everything a source must guarantee — a full
//! frame of fixed-point cells per successful capture — and the
//! two-sub-frame, retry-until-ready assembly protocol the sensor imposes.

use vstd::prelude::*;
use vstd::arithmetic::div_mod::{lemma_mod_division_less_than_divisor, lemma_multiply_divide_lt};
use crate::grid::{GRID_CELLS, GRID_HEIGHT, GRID_WIDTH};

verus! {

/// A capture failed because the underlying transport reported a hard I/O
/// fault. Transient not-ready probes are retried, never reported.
#[derive(Clone, Copy, Debug, PartialEq, Eq, Structural)]
pub enum CaptureError {
    Device,
}

/// A frame source: one full temperature grid per successful capture.
pub trait Capture {
    /// Capture one frame: on success, exactly one fixed-point reading per
    /// grid cell, row-major.
    fn capture(&mut self) -> (r: Result<Vec<i32>, CaptureError>)
        ensures
            r matches Ok(f) ==> f@.len() == GRID_CELLS,
    ;

    /// Grid columns.
    fn width(&self) -> (w: u8)
        ensures
            w as usize == GRID_WIDTH,
    ;

    /// Grid rows.
    fn height(&self) -> (h: u8)
        ensures
            h as usize == GRID_HEIGHT,
    ;
}

/// The synthetic reading of the mock source at cell `(x, y)`: nineteen
/// degrees plus a quarter degree per column plus an eighth per row, exact
/// in fixed-point units.
pub open spec fn mock_temp8(x: int, y: int) -> int {
    152 + 2 * x + y
}

/// Deterministic synthetic source for development without hardware; its
/// captures never fail. (Its real-time pacing, like all timing, is the
/// caller's affair.)
pub struct MockCamera {}

impl MockCamera {
    /// A mock source.
    pub fn new() -> (c: MockCamera) {
        MockCamera {  }
    }
}

impl Capture for MockCamera {
    /// The synthetic gradient frame, cell by cell. A mock capture never
    /// fails, and its cells are the formula's values whatever the state or
    /// the call count.
    fn capture(&mut self) -> (r: Result<Vec<i32>, CaptureError>)
        ensures
            r matches Ok(f) && f@.len() == GRID_CELLS && forall|i: int|
                0 <= i < GRID_CELLS ==> f@[i] == mock_temp8(
                    i % (GRID_WIDTH as int),
                    i / (GRID_WIDTH as int),
                ),
    {
        let mut v: Vec<i32> = Vec::new();
        let mut idx: usize = 0;
        while idx < GRID_CELLS
            invariant
                idx <= GRID_CELLS,
                v@.len() == idx,
                forall|i: int| 0 <= i < idx ==> v@[i] == mock_temp8(
                    i % (GRID_WIDTH as int),
                    i / (GRID_WIDTH as int),
                ),
            decreases GRID_CELLS - idx,
        {
            let x = idx % GRID_WIDTH;
            let y = idx / GRID_WIDTH;
            proof {
                lemma_mod_division_less_than_divisor(idx as int, GRID_WIDTH as int);
                lemma_multiply_divide_lt(idx as int, GRID_WIDTH as int, GRID_HEIGHT as int);
            }
            v.push(152 + 2 * (x as i32) + (y as i32));
            idx = idx + 1;
        }
        Ok(v)
    }

    fn width(&self) -> (w: u8)
        ensures
            w as usize == GRID_WIDTH,
    {
        32
    }

    fn height(&self) -> (h: u8)
        ensures
            h as usize == GRID_HEIGHT,
    {
        24
    }
}

/// Sub-frames the sensor interleaves a full frame into.
pub const SUBFRAMES: u8 = 2;

/// The hardware assembly protocol as a state machine: a full frame needs
/// exactly two sub-frame reads, and a not-ready probe retries the same
/// sub-frame instead of advancing or failing. The driver loop feeds it one
/// probe outcome at a time.
pub struct SubframeTracker {
    done: u8,
}

impl SubframeTracker {
    /// Sub-frames read so far.
    pub closed spec fn done_spec(&self) -> int {
        self.done as int
    }

    /// Both sub-frames are in: the frame is assembled.
    pub open spec fn complete(&self) -> bool {
        self.done_spec() == SUBFRAMES
    }

    /// Start assembling a fresh frame.
    pub fn new() -> (t: SubframeTracker)
        ensures
            t.done_spec() == 0,
            !t.complete(),
    {
        SubframeTracker { done: 0 }
    }

    /// Record one readiness probe: a ready sub-frame advances, a not-ready
    /// one leaves the state untouched, to be retried.
    pub fn step(&mut self, ready: bool)
        requires
            !old(self).complete(),
            0 <= old(self).done_spec() < SUBFRAMES,
        ensures
            final(self).done_spec() == old(self).done_spec() + if ready {
                1int
            } else {
                0int
            },
    {
        if ready {
            self.done = self.done + 1;
        }
    }

    /// Whether the frame is fully assembled.
    pub fn is_complete(&self) -> (r: bool)
        ensures
            r == self.complete(),
    {
        self.done == SUBFRAMES
    }
}

} // verus!
