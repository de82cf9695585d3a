//! The size of a display and the places of its digits.
//!
//! A display of `n` digits is `n` digit widths wide, with a digit spacing
//! between neighbours, a horizontal margin and room for the slant on
//! either side. Positions are measured in ticks from the middle of the
//! left edge of the display.

use vstd::prelude::*;
use crate::geometry::{floor_div, within, Point, Position, CENTER_LIMIT, METRIC_LIMIT};
use crate::metrics::{absolute_metrics, lemma_scaled_exact, DigitMetrics, Metrics};
use crate::style::SevenSegmentStyle;

verus! {

/// Largest magnitude of a coordinate of the left edge of a display.
pub const ORIGIN_LIMIT: i128 = 0x2000_0000_0000_0000_0000_0000_0000_0000;

/// The extent of a display, in ticks.
#[derive(Copy, Clone, Debug, PartialEq, Eq, Structural)]
pub struct Size {
    pub width: i128,
    pub height: i128,
}

impl Metrics {
    /// The distance from the centre of a digit to the centre of the next.
    pub open spec fn digit_pitch(&self) -> int {
        self.digit_width + self.digit_spacing
    }

    /// The width of a display of `digit_count` digits. A display without
    /// digits has no width.
    pub open spec fn widget_width(&self, digit_count: nat) -> int {
        if digit_count == 0 {
            0
        } else {
            digit_count * self.digit_width + (digit_count - 1) * self.digit_spacing + 2
                * self.margin_horizontal + 2 * self.digit_shearing
        }
    }

    pub open spec fn widget_height(&self) -> int {
        self.digit_height + 2 * self.margin_vertical
    }

    /// The centre of the digit at `index`, counted from the left, in a
    /// display whose left edge has its middle at `left_center`.
    pub open spec fn digit_center(&self, left_center: Position, index: nat) -> Position {
        Position {
            x: left_center.x + self.margin_horizontal + self.digit_shearing + self.digit_pitch()
                * index + self.digit_width / 2,
            y: left_center.y,
        }
    }
}

proof fn lemma_scaled_bound(count: int, length: int, limit: int)
    by (nonlinear_arith)
    requires
        0 <= count <= 0xFFFF_FFFF_FFFF_FFFF,
        -limit <= length <= limit,
    ensures
        -(0xFFFF_FFFF_FFFF_FFFF * limit) <= count * length <= 0xFFFF_FFFF_FFFF_FFFF * limit,
{
}

impl DigitMetrics {
    /// The size to reserve for a display of `digit_count` digits.
    pub fn widget_size(&self, digit_count: usize) -> (size: Size)
        requires
            self@.within_limits(),
        ensures
            size.width == self@.widget_width(digit_count as nat),
            size.height == self@.widget_height(),
    {
        let height: i128 = self.digit_height + 2 * self.margin_vertical;
        if digit_count == 0 {
            Size { width: 0, height }
        } else {
            let n: i128 = digit_count as i128;
            proof {
                lemma_scaled_bound(n as int, self.digit_width as int, METRIC_LIMIT as int);
                lemma_scaled_bound(n - 1, self.digit_spacing as int, METRIC_LIMIT as int);
            }
            Size {
                width: n * self.digit_width + (n - 1) * self.digit_spacing + 2
                    * self.margin_horizontal + 2 * self.digit_shearing,
                height,
            }
        }
    }

    /// The centre of the digit at `digit_index`.
    pub fn digit_center(&self, left_center: Point, digit_index: usize) -> (center: Point)
        requires
            self@.within_limits(),
            within(left_center.x as int, ORIGIN_LIMIT as int),
            within(left_center.y as int, ORIGIN_LIMIT as int),
        ensures
            center@ == self@.digit_center(left_center@, digit_index as nat),
            within(center.x as int, CENTER_LIMIT as int),
            within(center.y as int, CENTER_LIMIT as int),
    {
        let pitch: i128 = self.digit_width + self.digit_spacing;
        let index: i128 = digit_index as i128;
        proof {
            lemma_scaled_bound(index as int, pitch as int, 2 * METRIC_LIMIT);
            assert(pitch * index == index * pitch) by (nonlinear_arith);
        }
        let half_width: i128 = floor_div(self.digit_width, 2);
        Point {
            x: left_center.x + self.margin_horizontal + self.digit_shearing + pitch * index
                + half_width,
            y: left_center.y,
        }
    }
}

/// A display of one digit is as wide as the digit, its two margins and
/// the room for its slant: no digit spacing enters.
pub proof fn lemma_width_of_one_digit(m: Metrics)
    ensures
        m.widget_width(1) == m.digit_width + 2 * m.margin_horizontal + 2 * m.digit_shearing,
{
}

/// Each further digit widens the display by the digit pitch.
pub proof fn lemma_width_step(m: Metrics, digit_count: nat)
    requires
        digit_count >= 1,
    ensures
        m.widget_width(digit_count + 1) == m.widget_width(digit_count) + m.digit_pitch(),
{
    assert((digit_count + 1) * m.digit_width == digit_count * m.digit_width + m.digit_width)
        by (nonlinear_arith);
    assert(digit_count * m.digit_spacing == (digit_count - 1) * m.digit_spacing
        + m.digit_spacing) by (nonlinear_arith);
}

/// With a positive digit pitch, a display of more digits is wider; with a
/// pitch of zero or more, it is not narrower.
pub proof fn lemma_width_grows_with_digit_count(m: Metrics, fewer: nat, more: nat)
    requires
        1 <= fewer <= more,
    ensures
        m.widget_width(more) - m.widget_width(fewer) == (more - fewer) * m.digit_pitch(),
        m.digit_pitch() >= 0 ==> m.widget_width(fewer) <= m.widget_width(more),
        m.digit_pitch() > 0 && fewer < more ==> m.widget_width(fewer) < m.widget_width(more),
{
    let w = m.digit_width;
    let d = m.digit_spacing;
    assert(more * w + (more - 1) * d - (fewer * w + (fewer - 1) * d) == (more - fewer) * (w + d))
        by (nonlinear_arith);
    assert(m.digit_pitch() >= 0 ==> (more - fewer) * m.digit_pitch() >= 0) by (nonlinear_arith)
        requires
            fewer <= more,
    ;
    assert(m.digit_pitch() > 0 && fewer < more ==> (more - fewer) * m.digit_pitch() > 0)
        by (nonlinear_arith);
}

/// A digit of some height, with a positive ratio of width to height and a
/// spacing that takes back less than its whole width, has a positive pitch.
pub proof fn lemma_pitch_is_positive(style: SevenSegmentStyle, digit_height: u16)
    requires
        digit_height > 0,
        style.digit_ratio > 0,
        style.digit_spacing > -1000,
    ensures
        absolute_metrics(style, digit_height).digit_pitch() > 0,
{
    let h = digit_height as int;
    let r = style.digit_ratio as int;
    let d = style.digit_spacing as int;
    lemma_scaled_exact(r, h, 4_000_000);
    lemma_scaled_exact(d, r * h, 4_000);
    assert(r * h * 4_000_000 + d * (r * h) * 4_000 == (r * h) * 4_000 * (1000 + d))
        by (nonlinear_arith);
    assert((r * h) * 4_000 * (1000 + d) > 0) by (nonlinear_arith)
        requires
            r > 0,
            h > 0,
            1000 + d > 0,
    ;
}

/// The centres of neighbouring digits are one digit pitch apart, on one
/// horizontal line.
pub proof fn lemma_digit_centers_advance(m: Metrics, left_center: Position, index: nat)
    ensures
        m.digit_center(left_center, index + 1).x == m.digit_center(left_center, index).x
            + m.digit_pitch(),
        m.digit_center(left_center, index + 1).y == m.digit_center(left_center, index).y,
        m.digit_center(left_center, 0).x == left_center.x + m.margin_horizontal
            + m.digit_shearing + m.digit_width / 2,
{
    assert(m.digit_pitch() * (index + 1) == m.digit_pitch() * index + m.digit_pitch())
        by (nonlinear_arith);
    assert(m.digit_pitch() * 0 == 0);
}

} // verus!
