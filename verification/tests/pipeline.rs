//! The mailbox, the wake fan-out, and the acquisition/relay pipeline.

use thermocam::camera::{Capture, CaptureError, MockCamera, SubframeTracker};
use thermocam::mailbox::Mailbox;
use thermocam::notify::Notifier;
use thermocam::wrapper::{acquisition_step, CameraType, CameraWrapper};

#[test]
fn mailbox_latest_wins() {
    let mut m: Mailbox<Vec<i32>> = Mailbox::new();
    let a = vec![1i32];
    let b = vec![2i32];
    let evicted_a = m.publish(a);
    assert_eq!(evicted_a, None);
    let evicted_b = m.publish(b);
    // A was evicted, never delivered
    assert_eq!(evicted_b, Some(vec![1i32]));
    assert_eq!(m.take(), Some(vec![2i32]));
    assert_eq!(m.take(), None);
}

#[test]
fn mailbox_try_send_rejects_when_full() {
    let mut m: Mailbox<i32> = Mailbox::new();
    assert_eq!(m.try_send(7), Ok(()));
    // a full slot hands the new value straight back
    assert_eq!(m.try_send(8), Err(8));
    assert_eq!(m.take(), Some(7));
}

#[test]
fn fanout_wakes_every_listener_exactly_once() {
    let mut n = Notifier::new();
    let mut listeners = vec![n.subscribe(), n.subscribe(), n.subscribe()];
    n.notify();
    for l in listeners.iter_mut() {
        assert!(l.wait(&n)); // one wake each
        assert!(!l.wait(&n)); // and only one, until the next publish
    }
    n.notify();
    for l in listeners.iter_mut() {
        assert!(l.wait(&n));
    }
}

#[test]
fn late_subscriber_misses_earlier_wakes() {
    let mut n = Notifier::new();
    n.notify();
    let mut l = n.subscribe();
    // wakes before subscription are not replayed
    assert!(!l.wait(&n));
    n.notify();
    assert!(l.wait(&n));
}

#[test]
fn mock_camera_frame_matches_formula() {
    let mut cam = MockCamera::new();
    assert_eq!(cam.width(), 32);
    assert_eq!(cam.height(), 24);
    let frame = cam.capture().unwrap();
    assert_eq!(frame.len(), 768);
    for y in 0..24usize {
        for x in 0..32usize {
            let expect = ((19.0 + x as f32 / 4.0 + y as f32 / 8.0) * 8.0) as i32;
            assert_eq!(frame[x + y * 32], expect);
        }
    }
}

#[test]
fn mock_camera_never_fails_and_is_deterministic() {
    let mut a = MockCamera::new();
    let mut b = MockCamera::new();
    let first = a.capture();
    let again = a.capture();
    let other = b.capture();
    assert!(first.is_ok());
    let frame = first.unwrap();
    // equal on every call, whatever the state or call count
    assert_eq!(frame, again.unwrap());
    assert_eq!(frame, other.unwrap());
}

#[test]
fn end_to_end_mock_cycle() {
    // one acquisition cycle: capture, mailbox, relay, read back
    let mut cam = MockCamera::new();
    let mut wrapper = CameraWrapper::new_mock();
    assert_eq!(wrapper.camera_type(), CameraType::Mock);
    assert!(wrapper.get_last().is_none());
    let mut listener = wrapper.event();

    let mut mailbox: Mailbox<Vec<i32>> = Mailbox::new();
    assert!(acquisition_step(&mut mailbox, cam.capture()));
    let frame = mailbox.take().unwrap();
    wrapper.publish_frame(frame);

    assert!(listener.wait(wrapper.notifier()));
    let last = wrapper.get_last().as_ref().unwrap();
    assert_eq!(last.lower(), 15);
    assert_eq!(last.upper(), 30);
    assert_eq!(last.len(), 768);
    for y in 0..24usize {
        for x in 0..32usize {
            let expect = ((19.0 + x as f32 / 4.0 + y as f32 / 8.0) * 8.0) as i32;
            assert_eq!(last.at(x + y * 32), expect);
        }
    }
}

#[test]
fn capture_failure_keeps_last_good_frame() {
    let mut wrapper = CameraWrapper::new_mock();
    let mut mailbox: Mailbox<Vec<i32>> = Mailbox::new();

    assert!(acquisition_step(&mut mailbox, Ok(vec![160i32, 200i32])));
    wrapper.publish_frame(mailbox.take().unwrap());

    // the device errors once: nothing is published, nothing is cleared
    assert!(!acquisition_step(&mut mailbox, Err(CaptureError::Device)));
    assert_eq!(mailbox.take(), None);
    let last = wrapper.get_last().as_ref().unwrap();
    assert_eq!(last.lower(), 20);
    assert_eq!(last.at(0), 160);

    // and it recovers on the next cycle
    assert!(acquisition_step(&mut mailbox, Ok(vec![80i32])));
    wrapper.publish_frame(mailbox.take().unwrap());
    assert_eq!(wrapper.get_last().as_ref().unwrap().lower(), 10);
}

#[test]
fn subframe_protocol_needs_two_ready_probes() {
    let mut t = SubframeTracker::new();
    assert!(!t.is_complete());
    t.step(false); // not ready: retried, not advanced, not an error
    assert!(!t.is_complete());
    t.step(true);
    assert!(!t.is_complete());
    t.step(false);
    t.step(true);
    assert!(t.is_complete());
}
