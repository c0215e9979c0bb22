//! Auto-scale display bounds of captured frames.

use thermocam::frame::CameraCapture;

fn eighths(deg: f32) -> i32 {
    (deg * 8.0) as i32
}

#[test]
fn bounds_enclose_and_are_multiples_of_five() {
    // cells 19.0, 21.5, 29.625 degrees
    let c = CameraCapture::new(vec![eighths(19.0), eighths(21.5), eighths(29.625)]);
    assert_eq!(c.lower(), 15);
    assert_eq!(c.upper(), 30);
    assert!(c.lower() % 5 == 0 && c.upper() % 5 == 0);
    assert!(c.upper() - c.lower() >= 5);
    assert!(8 * c.lower() <= eighths(19.0));
    assert!(8 * c.upper() >= eighths(29.625));
}

#[test]
fn bounds_span_five_when_all_cells_equal() {
    let c = CameraCapture::new(vec![eighths(20.0); 768]);
    assert_eq!(c.lower(), 20);
    assert_eq!(c.upper(), 25);
    assert!(c.upper() - c.lower() >= 5);
}

#[test]
fn bounds_on_single_cell() {
    let c = CameraCapture::new(vec![eighths(7.5)]);
    // 7.5 truncates to 7, then to the multiple 5; one step above for upper
    assert_eq!(c.lower(), 5);
    assert_eq!(c.upper(), 10);
}

#[test]
fn bounds_truncate_toward_zero_on_negative_cells() {
    // -7.25 degrees: truncation toward zero gives -7, then -5 — the lower
    // bound sits above the coldest cell here, by the literal rule
    let c = CameraCapture::new(vec![eighths(-7.25)]);
    assert_eq!(c.lower(), -5);
    assert_eq!(c.upper(), 0);
    assert!(c.upper() - c.lower() >= 5);
    assert!(8 * c.upper() >= eighths(-7.25));
}

#[test]
fn bounds_keep_raw_data() {
    let cells = vec![eighths(18.0), eighths(25.0), eighths(22.125)];
    let c = CameraCapture::new(cells.clone());
    assert_eq!(c.len(), 3);
    for (i, v) in cells.iter().enumerate() {
        assert_eq!(c.get(i), Some(*v));
    }
    assert_eq!(c.get(3), None);
    assert_eq!(c.at(1), eighths(25.0));
}
