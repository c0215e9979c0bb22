//! The temperature-to-color map and the rendered surfaces.

use thermocam::color::{temp_to_color, Rgb, COLOR_SCALE};
use thermocam::frame::CameraCapture;
use thermocam::render::{legend_colors, render_cells};

/// A frame whose display bounds come out as 15..30 degrees.
fn frame_15_30() -> CameraCapture {
    let c = CameraCapture::new(vec![152, 237]);
    assert_eq!(c.lower(), 15);
    assert_eq!(c.upper(), 30);
    c
}

#[test]
fn color_is_deterministic() {
    let c = frame_15_30();
    assert_eq!(temp_to_color(&c, 170), temp_to_color(&c, 170));
}

#[test]
fn color_at_lower_bound_is_exact() {
    let c = frame_15_30();
    // normalized 0 maps to hue 2/3: mostly blue at 0.9 value
    assert_eq!(temp_to_color(&c, 15 * 8), Rgb { r: 90000, g: 90000, b: 900000 });
}

#[test]
fn color_extremes_clamp() {
    let c = frame_15_30();
    let lo = 15 * 8;
    let hi = 30 * 8;
    // mapping lower-100 and lower produce the same color; likewise above
    assert_eq!(temp_to_color(&c, lo - 100 * 8), temp_to_color(&c, lo));
    assert_eq!(temp_to_color(&c, hi + 100 * 8), temp_to_color(&c, hi));
}

#[test]
fn color_channels_stay_in_scale() {
    let c = frame_15_30();
    for t8 in -400..400 {
        let px = temp_to_color(&c, t8);
        assert!(px.r <= COLOR_SCALE && px.g <= COLOR_SCALE && px.b <= COLOR_SCALE);
    }
}

#[test]
fn hue_steps_smoothly_across_two_thirds() {
    let c = frame_15_30();
    // den = 120 fixed-point steps; normalized two-thirds is step 80
    let at_wrap = temp_to_color(&c, 120 + 80); // hue exactly 0: pure red
    let above_wrap = temp_to_color(&c, 120 + 81); // hue one step below a full turn
    assert_eq!(at_wrap, Rgb { r: 900000, g: 90000, b: 90000 });
    assert_eq!(above_wrap, Rgb { r: 900000, g: 90000, b: 130500 });
    // one step moves one channel by the width of a step, no jump
    assert!(above_wrap.b - at_wrap.b <= 45000);
}

#[test]
fn render_without_frame_is_checkerboard() {
    let v = render_cells(&None);
    assert_eq!(v.len(), 768);
    let white = Rgb { r: 1000000, g: 1000000, b: 1000000 };
    let black = Rgb { r: 0, g: 0, b: 0 };
    assert_eq!(v[0], white);
    assert_eq!(v[1], black);
    assert_eq!(v[32], black); // (0, 1)
    assert_eq!(v[33], white);
}

#[test]
fn render_mirrors_columns() {
    let mut cells = vec![160i32; 768];
    cells[31] = 237; // hottest cell in column 31 of row 0
    let c = CameraCapture::new(cells);
    let v = render_cells(&Some(c));
    assert_eq!(v.len(), 768);
    let c2 = CameraCapture::new({
        let mut cells = vec![160i32; 768];
        cells[31] = 237;
        cells
    });
    // drawn x-mirrored: rendered cell 0 shows grid cell 31
    assert_eq!(v[0], temp_to_color(&c2, 237));
    assert_eq!(v[31], temp_to_color(&c2, 160));
}

#[test]
fn legend_runs_from_upper_to_lower() {
    let c = frame_15_30();
    let v = legend_colors(&c, 240);
    assert_eq!(v.len(), 240);
    // top row carries the upper bound, fifteen degrees above lower
    assert_eq!(v[0], temp_to_color(&c, 30 * 8));
    // halfway down the legend shows the middle of the range
    assert_eq!(v[120], temp_to_color(&c, (30 * 8 + 15 * 8) / 2));
}
