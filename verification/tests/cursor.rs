//! Pointer-to-cell lookup.

use thermocam::frame::CameraCapture;
use thermocam::grid::{index_at_cursor, temp_at_cursor, GRID_CELLS, GRID_HEIGHT, GRID_WIDTH};

#[test]
fn grid_shape() {
    assert_eq!(GRID_WIDTH, 32);
    assert_eq!(GRID_HEIGHT, 24);
    assert_eq!(GRID_CELLS, 768);
}

#[test]
fn index_center_of_surface() {
    // grid 32x24, surface 320x240, pointer (160, 120) -> 16 + 12*32
    assert_eq!(index_at_cursor(Some((160, 120)), 320, 240), Some(400));
}

#[test]
fn index_corners_of_surface() {
    assert_eq!(index_at_cursor(Some((0, 0)), 320, 240), Some(0));
    assert_eq!(index_at_cursor(Some((319, 239)), 320, 240), Some(767));
}

#[test]
fn index_without_position() {
    assert_eq!(index_at_cursor(None, 320, 240), None);
}

#[test]
fn index_outside_surface() {
    // below or beyond the surface the index leaves the buffer: absent, not an error
    assert_eq!(index_at_cursor(Some((-10, 0)), 320, 240), None);
    assert_eq!(index_at_cursor(Some((160, 2400)), 320, 240), None);
}

#[test]
fn temp_under_cursor() {
    let mut cells = vec![160i32; 768];
    cells[400] = 231;
    let c = CameraCapture::new(cells);
    let last = Some(c);
    assert_eq!(temp_at_cursor(&last, Some((160, 120)), 320, 240), Some(231));
    assert_eq!(temp_at_cursor(&last, None, 320, 240), None);
    assert_eq!(temp_at_cursor(&None, Some((160, 120)), 320, 240), None);
    assert_eq!(temp_at_cursor(&last, Some((160, 2400)), 320, 240), None);
}

#[test]
fn temp_on_short_frame_is_absent() {
    // an index beyond the held buffer yields no temperature
    let last = Some(CameraCapture::new(vec![160i32; 10]));
    assert_eq!(temp_at_cursor(&last, Some((160, 120)), 320, 240), None);
}
