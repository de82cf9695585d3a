//! Why nothing is rounded: the corners of the segments of a style fall on
//! whole ticks.

use vstd::prelude::*;
use vstd::arithmetic::div_mod::lemma_div_multiples_vanish;
use crate::metrics::{absolute_metrics, lemma_scaled_exact, Metrics};
use crate::style::SevenSegmentStyle;

verus! {

/// In the metrics of a style, the slant moves a point whose distance from
/// the centre line is a whole number of 4000ths of a length unit by a whole
/// number of ticks: the quotient in [`Metrics::shear_at`] has no remainder.
pub proof fn lemma_shear_exact_on_grid(style: SevenSegmentStyle, digit_height: u16, n: int)
    ensures
        ({
            let m = absolute_metrics(style, digit_height);
            m.shear_at(n * 1_000_000) * (m.digit_height / 2) == n * 1_000_000 * m.digit_shearing
        }),
{
    let m = absolute_metrics(style, digit_height);
    let h = digit_height as int;
    let r = style.digit_ratio as int;
    let sh = style.digit_shearing as int;
    lemma_scaled_exact(r, h, 4_000_000);
    lemma_scaled_exact(sh, r * h, 4_000);
    let half_height = m.digit_height / 2;
    let dy = n * 1_000_000;
    assert(half_height == h * 2_000_000_000);
    assert(m.digit_shearing == sh * (r * h) * 4_000);
    if half_height == 0 {
        assert(m.digit_shearing == 0) by (nonlinear_arith)
            requires
                h == 0,
                m.digit_shearing == sh * (r * h) * 4_000,
        ;
        assert(m.shear_at(dy) == 0);
        assert(dy * 0 == 0);
        assert(0 * half_height == 0);
    } else {
        let quotient = n * sh * r * 2;
        assert(dy * m.digit_shearing == half_height * quotient) by (nonlinear_arith)
            requires
                dy == n * 1_000_000,
                m.digit_shearing == sh * (r * h) * 4_000,
                half_height == h * 2_000_000_000,
                quotient == n * sh * r * 2,
        ;
        lemma_div_multiples_vanish(quotient, half_height);
        assert(m.shear_at(dy) == quotient);
        assert(quotient * half_height == half_height * quotient) by (nonlinear_arith);
    }
}

/// The lengths that the outlines of a style are made of are whole numbers
/// of 4000ths of a length unit.
spec fn on_grid(m: Metrics) -> bool {
    &&& (m.digit_width / 2) % 1_000_000 == 0
    &&& m.digit_width % 2 == 0
    &&& (m.digit_height / 2) % 1_000_000 == 0
    &&& m.digit_height % 2 == 0
    &&& (m.segment_thickness / 4) % 1_000_000 == 0
    &&& m.segment_thickness % 4 == 0
    &&& m.segment_spacing % 1_000_000 == 0
    &&& m.digit_median % 1_000_000 == 0
}

proof fn lemma_style_on_grid(style: SevenSegmentStyle, digit_height: u16)
    ensures
        on_grid(absolute_metrics(style, digit_height)),
{
    let h = digit_height as int;
    lemma_scaled_exact(style.digit_ratio as int, h, 4_000_000);
    lemma_scaled_exact(style.segment_thickness as int, h, 4_000_000);
    lemma_scaled_exact(style.segment_spacing as int, h, 4_000_000);
    lemma_scaled_exact(style.digit_median as int, h, 2_000_000);
}

/// Whether a length is a whole number of 4000ths of a length unit.
spec fn whole_steps(x: int) -> bool {
    x % 1_000_000 == 0
}

proof fn lemma_top_on_grid(m: Metrics, vertex: int)
    requires
        on_grid(m),
        0 <= vertex < 6,
    ensures
        whole_steps(m.top_outline()[vertex].dy),
{
    let t4 = m.segment_thickness / 4;
    assert(m.segment_thickness == 4 * t4);
    assert(m.segment_thickness / 2 == 2 * t4);
}

proof fn lemma_upper_right_on_grid(m: Metrics, vertex: int)
    requires
        on_grid(m),
        0 <= vertex < 6,
    ensures
        whole_steps(m.upper_right_outline()[vertex].dy),
{
    let t4 = m.segment_thickness / 4;
    assert(m.segment_thickness == 4 * t4);
    assert(m.segment_thickness / 2 == 2 * t4);
}

proof fn lemma_lower_right_on_grid(m: Metrics, vertex: int)
    requires
        on_grid(m),
        0 <= vertex < 6,
    ensures
        whole_steps(m.lower_right_outline()[vertex].dy),
{
    let t4 = m.segment_thickness / 4;
    assert(m.segment_thickness == 4 * t4);
    assert(m.segment_thickness / 2 == 2 * t4);
}

proof fn lemma_bottom_on_grid(m: Metrics, vertex: int)
    requires
        on_grid(m),
        0 <= vertex < 6,
    ensures
        whole_steps(m.bottom_outline()[vertex].dy),
{
    let t4 = m.segment_thickness / 4;
    assert(m.segment_thickness == 4 * t4);
    assert(m.segment_thickness / 2 == 2 * t4);
}

proof fn lemma_lower_left_on_grid(m: Metrics, vertex: int)
    requires
        on_grid(m),
        0 <= vertex < 6,
    ensures
        whole_steps(m.lower_left_outline()[vertex].dy),
{
    let t4 = m.segment_thickness / 4;
    assert(m.segment_thickness == 4 * t4);
    assert(m.segment_thickness / 2 == 2 * t4);
}

proof fn lemma_upper_left_on_grid(m: Metrics, vertex: int)
    requires
        on_grid(m),
        0 <= vertex < 6,
    ensures
        whole_steps(m.upper_left_outline()[vertex].dy),
{
    let t4 = m.segment_thickness / 4;
    assert(m.segment_thickness == 4 * t4);
    assert(m.segment_thickness / 2 == 2 * t4);
}

proof fn lemma_middle_on_grid(m: Metrics, vertex: int)
    requires
        on_grid(m),
        0 <= vertex < 6,
    ensures
        whole_steps(m.middle_outline()[vertex].dy),
{
    let t4 = m.segment_thickness / 4;
    assert(m.segment_thickness == 4 * t4);
    assert(m.segment_thickness / 2 == 2 * t4);
}

proof fn lemma_outline_on_grid(m: Metrics, segment: int, vertex: int)
    requires
        on_grid(m),
        0 <= segment < 7,
        0 <= vertex < 6,
    ensures
        whole_steps(m.outline(segment)[vertex].dy),
{
    if segment == 0 {
        lemma_top_on_grid(m, vertex);
    } else if segment == 1 {
        lemma_upper_right_on_grid(m, vertex);
    } else if segment == 2 {
        lemma_lower_right_on_grid(m, vertex);
    } else if segment == 3 {
        lemma_bottom_on_grid(m, vertex);
    } else if segment == 4 {
        lemma_lower_left_on_grid(m, vertex);
    } else if segment == 5 {
        lemma_upper_left_on_grid(m, vertex);
    } else {
        lemma_middle_on_grid(m, vertex);
    }
}

/// Every corner of every segment of a style is a whole number of ticks:
/// the halves and quarters in the outlines divide evenly, and so does the
/// slant at the height of each corner.
pub proof fn lemma_vertices_are_exact(
    style: SevenSegmentStyle,
    digit_height: u16,
    segment: int,
    vertex: int,
)
    requires
        0 <= segment < 7,
        0 <= vertex < 6,
    ensures
        ({
            let m = absolute_metrics(style, digit_height);
            let dy = m.outline(segment)[vertex].dy;
            &&& m.digit_width % 2 == 0
            &&& m.digit_height % 2 == 0
            &&& m.segment_thickness % 4 == 0
            &&& m.shear_at(dy) * (m.digit_height / 2) == dy * m.digit_shearing
        }),
{
    let m = absolute_metrics(style, digit_height);
    lemma_style_on_grid(style, digit_height);
    lemma_outline_on_grid(m, segment, vertex);
    let dy = m.outline(segment)[vertex].dy;
    lemma_shear_exact_on_grid(style, digit_height, dy / 1_000_000);
}

} // verus!
