use egui_knobs::font::DEFAULT_FONT;
use egui_knobs::geometry::{Point, TICKS_PER_UNIT};
use egui_knobs::metrics::DigitMetrics;
use egui_knobs::segments::segments_for_digit;
use egui_knobs::style::{Color, SevenSegmentPreset, SevenSegmentStyle, Stroke};

const UNIT: i128 = 4_000_000_000;

fn default_style() -> SevenSegmentStyle<'static> {
    SevenSegmentPreset::Default.style().expect("the default preset is defined")
}

fn style_with(
    spacing: i16,
    thickness: i16,
    median: i16,
    ratio: i16,
    shearing: i16,
) -> SevenSegmentStyle<'static> {
    SevenSegmentStyle {
        segment_spacing: spacing,
        segment_thickness: thickness,
        digit_median: median,
        digit_ratio: ratio,
        digit_shearing: shearing,
        digit_spacing: 200,
        margin_horizontal: 200,
        margin_vertical: 100,
        segment_on_color: Color::from_rgb(255, 0, 0),
        segment_on_stroke: Stroke::none(),
        segment_off_color: Color::from_rgb(32, 0, 0),
        segment_off_stroke: Stroke::none(),
        digit_font: &DEFAULT_FONT,
        background_color: Color::from_rgb(0, 0, 0),
    }
}

fn units(ticks: i128) -> f64 {
    ticks as f64 / UNIT as f64
}

fn fraction(thousandths: i16) -> f64 {
    f64::from(thousandths) / 1000.0
}

/// The corners of the seven segments in floating point, in length units.
fn expected_segments(
    style: &SevenSegmentStyle,
    digit_height: f64,
    center: (f64, f64),
) -> Vec<Vec<(f64, f64)>> {
    let digit_width = digit_height * fraction(style.digit_ratio);
    let t = fraction(style.segment_thickness) * digit_height;
    let s = fraction(style.segment_spacing) * digit_height;
    let shearing = fraction(style.digit_shearing) * digit_width;
    let m = fraction(style.digit_median) * (digit_height / 2.0);
    let w = digit_width / 2.0;
    let h = digit_height / 2.0;
    let p = |dx: f64, dy: f64| (center.0 + dx - (dy / h) * shearing, center.1 + dy);
    vec![
        vec![
            p(-w + t / 4.0 + s, -h + t / 4.0),
            p(-w + t / 2.0 + s, -h),
            p(w - t / 2.0 - s, -h),
            p(w - t / 4.0 - s, -h + t / 4.0),
            p(w - t - s, -h + t),
            p(-w + t + s, -h + t),
        ],
        vec![
            p(w - t, -h + t + s),
            p(w - t / 4.0, -h + t / 4.0 + s),
            p(w, -h + t / 2.0 + s),
            p(w, -t / 2.0 - s + m),
            p(w - t / 2.0, -s + m),
            p(w - t, -t / 2.0 - s + m),
        ],
        vec![
            p(w - t, h - t - s),
            p(w - t / 4.0, h - t / 4.0 - s),
            p(w, h - t / 2.0 - s),
            p(w, t / 2.0 + s + m),
            p(w - t / 2.0, s + m),
            p(w - t, t / 2.0 + s + m),
        ],
        vec![
            p(-w + t / 4.0 + s, h - t / 4.0),
            p(-w + t / 2.0 + s, h),
            p(w - t / 2.0 - s, h),
            p(w - t / 4.0 - s, h - t / 4.0),
            p(w - t - s, h - t),
            p(-w + t + s, h - t),
        ],
        vec![
            p(-w + t, h - t - s),
            p(-w + t / 4.0, h - t / 4.0 - s),
            p(-w, h - t / 2.0 - s),
            p(-w, t / 2.0 + s + m),
            p(-w + t / 2.0, s + m),
            p(-w + t, t / 2.0 + s + m),
        ],
        vec![
            p(-w + t, -h + t + s),
            p(-w + t / 4.0, -h + t / 4.0 + s),
            p(-w, -h + t / 2.0 + s),
            p(-w, -t / 2.0 - s + m),
            p(-w + t / 2.0, -s + m),
            p(-w + t, -t / 2.0 - s + m),
        ],
        vec![
            p(-w + t / 2.0 + s, m),
            p(-w + t + s, -t / 2.0 + m),
            p(w - t - s, -t / 2.0 + m),
            p(w - t / 2.0 - s, m),
            p(w - t - s, t / 2.0 + m),
            p(-w + t + s, t / 2.0 + m),
        ],
    ]
}

fn assert_matches_floating_point(style: &SevenSegmentStyle, digit_height: u16, center: (i32, i32)) {
    let digit_center =
        Point { x: i128::from(center.0) * UNIT, y: i128::from(center.1) * UNIT };
    let segments = segments_for_digit(style, digit_height, digit_center);
    let expected = expected_segments(
        style,
        f64::from(digit_height),
        (f64::from(center.0), f64::from(center.1)),
    );
    for (segment, polygon) in segments.iter().enumerate() {
        for (vertex, point) in polygon.iter().enumerate() {
            let (x, y) = expected[segment][vertex];
            assert!(
                (units(point.x) - x).abs() < 1e-9 && (units(point.y) - y).abs() < 1e-9,
                "segment {segment}, vertex {vertex}: ({}, {}) is not ({x}, {y})",
                units(point.x),
                units(point.y),
            );
        }
    }
}

#[test]
fn ticks_per_unit_is_four_thousand_million() {
    assert_eq!(TICKS_PER_UNIT, UNIT);
}

#[test]
fn default_metrics_at_height_48() {
    let m = default_style().metrics(48);
    assert_eq!(
        m,
        DigitMetrics {
            digit_width: 24 * UNIT,
            digit_height: 48 * UNIT,
            segment_thickness: 19_200_000_000,
            segment_spacing: 3_840_000_000,
            digit_median: -4_800_000_000,
            digit_shearing: 9_600_000_000,
            digit_spacing: 19_200_000_000,
            margin_horizontal: 19_200_000_000,
            margin_vertical: 19_200_000_000,
        }
    );
}

#[test]
fn metrics_scale_with_the_digit_height() {
    let m = default_style().metrics(64);
    assert_eq!(m.digit_width, 32 * UNIT);
    assert_eq!(m.digit_height, 64 * UNIT);
    assert_eq!(m.segment_thickness, 25_600_000_000);
    assert_eq!(m.segment_spacing, 5_120_000_000);
    assert_eq!(m.digit_median, -6_400_000_000);
    assert_eq!(m.digit_shearing, 12_800_000_000);
}

#[test]
fn metrics_of_extreme_styles_do_not_overflow() {
    let mut style = style_with(i16::MAX, i16::MAX, i16::MIN, i16::MIN, i16::MIN);
    style.digit_spacing = i16::MAX;
    style.margin_horizontal = i16::MIN;
    style.margin_vertical = i16::MAX;
    let m = style.metrics(u16::MAX);
    assert_eq!(m.digit_height, 65_535 * UNIT);
    assert_eq!(m.digit_width, -32_768 * 65_535 * 4_000_000);
    assert_eq!(m.segment_thickness, 32_767 * 65_535 * 4_000_000);
    assert_eq!(m.digit_median, -32_768 * 65_535 * 2_000_000);
    assert_eq!(m.digit_shearing, 32_768 * 32_768 * 65_535 * 4_000);
    assert_eq!(m.digit_spacing, -32_767 * 32_768 * 65_535 * 4_000);
    assert_eq!(m.margin_horizontal, 32_768 * 32_768 * 65_535 * 4_000);
    let segments = segments_for_digit(&style, u16::MAX, Point { x: 0, y: 0 });
    assert_eq!(segments.len(), 7);
}

#[test]
fn a_digit_has_seven_hexagons() {
    let segments = segments_for_digit(&default_style(), 48, Point { x: 0, y: 0 });
    assert_eq!(segments.len(), 7);
    for polygon in segments.iter() {
        assert_eq!(polygon.len(), 6);
    }
    let flat = segments_for_digit(&style_with(0, 0, 0, 0, 0), 0, Point { x: 5, y: -5 });
    assert_eq!(flat.len(), 7);
    for polygon in flat.iter() {
        assert_eq!(polygon.len(), 6);
        for point in polygon.iter() {
            assert_eq!(*point, Point { x: 5, y: -5 });
        }
    }
}

#[test]
fn top_segment_of_the_default_digit() {
    let segments = segments_for_digit(&default_style(), 48, Point { x: 0, y: 0 });
    let top = segments[0];
    // Corners before the slant, in length units:
    // (-9.84, -22.8), (-8.64, -24), (8.64, -24), (9.84, -22.8), (6.24, -19.2), (-6.24, -19.2);
    // the slant moves a point at height dy to the left by dy / 24 * 2.4.
    assert_eq!(top[0], Point { x: -30_240_000_000, y: -91_200_000_000 });
    assert_eq!(top[1], Point { x: -24_960_000_000, y: -96_000_000_000 });
    assert_eq!(top[2], Point { x: 44_160_000_000, y: -96_000_000_000 });
    assert_eq!(top[3], Point { x: 48_480_000_000, y: -91_200_000_000 });
    assert_eq!(top[4], Point { x: 32_640_000_000, y: -76_800_000_000 });
    assert_eq!(top[5], Point { x: -17_280_000_000, y: -76_800_000_000 });
}

#[test]
fn middle_segment_sits_on_the_median() {
    let segments = segments_for_digit(&default_style(), 48, Point { x: 0, y: 0 });
    let middle = segments[6];
    // The median is 1.2 units above the centre; the slant there is -0.12.
    assert_eq!(middle[0], Point { x: -34_080_000_000, y: -4_800_000_000 });
    assert_eq!(middle[3], Point { x: 35_040_000_000, y: -4_800_000_000 });
    assert_eq!(middle[1].y, -14_400_000_000);
    assert_eq!(middle[2].y, -14_400_000_000);
    assert_eq!(middle[4].y, 4_800_000_000);
    assert_eq!(middle[5].y, 4_800_000_000);
    // -6.24 + 0.36 and -6.24 - 0.12
    assert_eq!(middle[1].x, -23_520_000_000);
    assert_eq!(middle[5].x, -25_440_000_000);
}

#[test]
fn default_digit_matches_floating_point() {
    assert_matches_floating_point(&default_style(), 48, (0, 0));
    assert_matches_floating_point(&default_style(), 64, (100, -30));
    assert_matches_floating_point(&default_style(), 1, (0, 0));
    assert_matches_floating_point(&default_style(), 7, (-3, 9));
}

#[test]
fn other_styles_match_floating_point() {
    assert_matches_floating_point(&style_with(20, 100, 50, 500, -100), 48, (0, 0));
    assert_matches_floating_point(&style_with(1, 3, -7, 333, 77), 13, (10, 10));
    assert_matches_floating_point(&style_with(35, 125, 0, 600, 0), 200, (-50, 50));
    assert_matches_floating_point(&style_with(-20, -100, 999, -500, 1500), 31, (1, 2));
    assert_matches_floating_point(&style_with(15, 90, -120, 1250, 250), 1000, (0, 0));
}

#[test]
fn the_centre_moves_every_corner_alike() {
    let style = default_style();
    let at_origin = segments_for_digit(&style, 48, Point { x: 0, y: 0 });
    let moved = segments_for_digit(&style, 48, Point { x: 1_000_000_007, y: -77 });
    for segment in 0..7 {
        for vertex in 0..6 {
            assert_eq!(moved[segment][vertex].x, at_origin[segment][vertex].x + 1_000_000_007);
            assert_eq!(moved[segment][vertex].y, at_origin[segment][vertex].y - 77);
        }
    }
}

#[test]
fn slant_leaves_the_centre_line_alone() {
    for shearing in [-2000i16, -100, 0, 1, 100, 750, i16::MAX, i16::MIN] {
        let m = style_with(20, 100, -50, 500, shearing).metrics(48);
        assert_eq!(m.shear_at(0), 0);
        let p = m.project(Point { x: 11, y: 22 }, 5 * UNIT, 0);
        assert_eq!(p, Point { x: 11 + 5 * UNIT, y: 22 });
    }
}

#[test]
fn slant_grows_with_the_distance_from_the_centre_line() {
    let m = default_style().metrics(48);
    // 2.4 units at the bottom edge, 24 units below the centre.
    assert_eq!(m.shear_at(24 * UNIT), 9_600_000_000);
    assert_eq!(m.shear_at(-24 * UNIT), -9_600_000_000);
    assert_eq!(m.shear_at(12 * UNIT), 4_800_000_000);
    assert_eq!(m.shear_at(UNIT), 400_000_000);
    let p = m.project(Point { x: 0, y: 0 }, 0, 24 * UNIT);
    assert_eq!(p, Point { x: -9_600_000_000, y: 24 * UNIT });
}

#[test]
fn slant_of_an_odd_height_rounds_down() {
    let m = default_style().metrics(48);
    // 1 tick below the centre the slant is a tenth of a tick.
    assert_eq!(m.shear_at(1), 0);
    assert_eq!(m.shear_at(-1), -1);
    assert_eq!(m.shear_at(10), 1);
    assert_eq!(m.shear_at(-10), -1);
    assert_eq!(m.shear_at(-11), -2);
}

#[test]
fn a_digit_without_height_is_not_slanted() {
    let m = default_style().metrics(0);
    assert_eq!(m.digit_height, 0);
    assert_eq!(m.shear_at(1_000), 0);
    assert_eq!(m.project(Point { x: 1, y: 2 }, 3, 4), Point { x: 4, y: 6 });
}

#[test]
fn an_upright_style_is_mirror_symmetric() {
    let segments = segments_for_digit(&style_with(20, 100, 0, 500, 0), 48, Point { x: 0, y: 0 });
    for vertex in 0..6 {
        // bottom mirrors top, the left side mirrors the right side
        assert_eq!(segments[3][vertex].x, segments[0][vertex].x);
        assert_eq!(segments[3][vertex].y, -segments[0][vertex].y);
        assert_eq!(segments[5][vertex].x, -segments[1][vertex].x);
        assert_eq!(segments[5][vertex].y, segments[1][vertex].y);
        assert_eq!(segments[4][vertex].x, -segments[2][vertex].x);
        assert_eq!(segments[4][vertex].y, segments[2][vertex].y);
        assert_eq!(segments[2][vertex].x, segments[1][vertex].x);
        assert_eq!(segments[2][vertex].y, -segments[1][vertex].y);
    }
}

#[test]
fn polygons_of_metrics_agree_with_the_style() {
    let style = default_style();
    let center = Point { x: 19_200_000_000 * 4, y: 0 };
    let from_style = segments_for_digit(&style, 48, center);
    let from_metrics = style.metrics(48).segment_polygons(center);
    assert_eq!(from_style, from_metrics);
}

#[test]
fn corners_fall_on_whole_ticks() {
    let styles = [
        default_style(),
        style_with(1, 3, -7, 333, 77),
        style_with(-20, -101, 999, -501, 1501),
        style_with(i16::MAX, i16::MIN, i16::MAX, i16::MIN, i16::MAX),
    ];
    for style in styles.iter() {
        for digit_height in [1u16, 3, 48, 999, u16::MAX] {
            let m = style.metrics(digit_height);
            assert_eq!(m.digit_width % 2, 0);
            assert_eq!(m.digit_height % 2, 0);
            assert_eq!(m.segment_thickness % 4, 0);
            let segments = segments_for_digit(style, digit_height, Point { x: 0, y: 0 });
            for polygon in segments.iter() {
                for point in polygon.iter() {
                    // the slant at the height of the corner has no remainder
                    let shift = m.shear_at(point.y);
                    assert_eq!(shift * (m.digit_height / 2), point.y * m.digit_shearing);
                }
            }
        }
    }
}
