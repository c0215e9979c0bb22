//! The shared camera state: source selection, the single current frame, and
//! the wake broadcast — plus the decision steps of the two loops around it.
//!
//! The acquisition loop owns only a mailbox handle; the relay (the single
//! writer of the current frame) takes each frame out of the mailbox, wraps
//! it, stores it, and then notifies, so no listener can be woken for a frame
//! that is not yet readable.

use vstd::prelude::*;
use crate::camera::CaptureError;
use crate::frame::CameraCapture;
use crate::mailbox::Mailbox;
use crate::notify::{CameraEvent, Notifier};

verus! {

/// Which source the wrapper was built for.
#[derive(Clone, Copy, Debug, PartialEq, Eq, Structural)]
pub enum CameraType {
    Mock,
    MLX90640,
}

/// The presentation-side camera state. Consumers only ever read the current
/// frame and wait on the signal; the relay step is its single writer.
pub struct CameraWrapper {
    camera_type: CameraType,
    last: Option<CameraCapture>,
    notifier: Notifier,
}

impl CameraWrapper {
    /// The selected source.
    pub closed spec fn camera_type_spec(&self) -> CameraType {
        self.camera_type
    }

    /// The current frame, if one was ever published.
    pub closed spec fn last_spec(&self) -> Option<CameraCapture> {
        self.last
    }

    /// The wake signal.
    pub closed spec fn notifier_spec(&self) -> Notifier {
        self.notifier
    }

    /// Whatever frame is current carries its own auto-scale bounds.
    pub open spec fn wf(&self) -> bool {
        self.last_spec() matches Some(c) ==> c.wf()
    }

    /// State for the hardware source: no frame yet, no wake signalled.
    pub fn new() -> (w: CameraWrapper)
        ensures
            w.camera_type_spec() == CameraType::MLX90640,
            w.last_spec() is None,
            w.notifier_spec().version_spec() == 0,
            w.wf(),
    {
        CameraWrapper { camera_type: CameraType::MLX90640, last: None, notifier: Notifier::new() }
    }

    /// State for the mock source: no frame yet, no wake signalled.
    pub fn new_mock() -> (w: CameraWrapper)
        ensures
            w.camera_type_spec() == CameraType::Mock,
            w.last_spec() is None,
            w.notifier_spec().version_spec() == 0,
            w.wf(),
    {
        CameraWrapper { camera_type: CameraType::Mock, last: None, notifier: Notifier::new() }
    }

    /// The selected source kind.
    pub fn camera_type(&self) -> (t: CameraType)
        ensures
            t == self.camera_type_spec(),
    {
        self.camera_type
    }

    /// Subscribe a listener. It observes every wake from here on, and none
    /// from before.
    pub fn event(&self) -> (l: CameraEvent)
        ensures
            l.seen_spec() == self.notifier_spec().version_spec(),
            !l.pending(self.notifier_spec()),
    {
        self.notifier.subscribe()
    }

    /// The wake signal, for listeners to wait on.
    pub fn notifier(&self) -> (n: &Notifier)
        ensures
            *n == self.notifier_spec(),
    {
        &self.notifier
    }

    /// Read-only snapshot of the current frame; `None` until the first
    /// successful capture was relayed (consumers then render a placeholder).
    pub fn get_last(&self) -> (r: &Option<CameraCapture>)
        ensures
            *r == self.last_spec(),
    {
        &self.last
    }

    /// The relay step for one raw frame: wrap it with its display bounds,
    /// replace the current frame atomically from a reader's point of view,
    /// and only then broadcast one wake.
    pub fn publish_frame(&mut self, data: Vec<i32>)
        requires
            data@.len() >= 1,
            old(self).notifier_spec().version_spec() < u64::MAX,
        ensures
            final(self).wf(),
            final(self).last_spec() matches Some(c) && c@ == data@,
            final(self).notifier_spec().version_spec() == old(self).notifier_spec().version_spec()
                + 1,
            final(self).camera_type_spec() == old(self).camera_type_spec(),
    {
        let capture = CameraCapture::new(data);
        self.last = Some(capture);
        self.notifier.notify();
    }
}

/// One turn of the acquisition loop, given the outcome of a capture: a new
/// frame goes into the mailbox, evicting any stale one — the newest frame
/// always wins and the producer never blocks. A transient failure publishes
/// nothing, leaves the mailbox as it was, and the loop goes on; it never
/// terminates acquisition, and the last good frame stays retrievable.
pub fn acquisition_step(
    mailbox: &mut Mailbox<Vec<i32>>,
    outcome: Result<Vec<i32>, CaptureError>,
) -> (published: bool)
    ensures
        match outcome {
            Ok(f) => final(mailbox).slot_spec() == Some(f) && published,
            Err(_) => final(mailbox).slot_spec() == old(mailbox).slot_spec() && !published,
        },
{
    match outcome {
        Ok(frame) => {
            let _ = mailbox.publish(frame);
            true
        },
        Err(_) => false,
    }
}

} // verus!
