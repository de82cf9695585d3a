//! The measures of a digit: a style's fractions turned into lengths.

use vstd::prelude::*;
use vstd::arithmetic::div_mod::lemma_div_multiples_vanish;
use crate::geometry::{lemma_product_bound, within, METRIC_LIMIT, TICKS_PER_UNIT};
use crate::style::SevenSegmentStyle;

verus! {

/// The measures of a digit and of the widget around it, in ticks, as the
/// contracts see them.
pub struct Metrics {
    pub digit_width: int,
    pub digit_height: int,
    pub segment_thickness: int,
    pub segment_spacing: int,
    pub digit_median: int,
    pub digit_shearing: int,
    pub digit_spacing: int,
    pub margin_horizontal: int,
    pub margin_vertical: int,
}

/// The measures of a digit and of the widget around it, in ticks.
#[derive(Copy, Clone, Debug, PartialEq, Eq, Structural)]
pub struct DigitMetrics {
    pub digit_width: i128,
    pub digit_height: i128,
    pub segment_thickness: i128,
    pub segment_spacing: i128,
    pub digit_median: i128,
    pub digit_shearing: i128,
    pub digit_spacing: i128,
    pub margin_horizontal: i128,
    pub margin_vertical: i128,
}

impl View for DigitMetrics {
    type V = Metrics;

    open spec fn view(&self) -> Metrics {
        Metrics {
            digit_width: self.digit_width as int,
            digit_height: self.digit_height as int,
            segment_thickness: self.segment_thickness as int,
            segment_spacing: self.segment_spacing as int,
            digit_median: self.digit_median as int,
            digit_shearing: self.digit_shearing as int,
            digit_spacing: self.digit_spacing as int,
            margin_horizontal: self.margin_horizontal as int,
            margin_vertical: self.margin_vertical as int,
        }
    }
}

impl Metrics {
    /// The digit is not upside down and no measure is beyond
    /// [`METRIC_LIMIT`].
    pub open spec fn within_limits(&self) -> bool {
        &&& 0 <= self.digit_height <= METRIC_LIMIT
        &&& within(self.digit_width, METRIC_LIMIT as int)
        &&& within(self.segment_thickness, METRIC_LIMIT as int)
        &&& within(self.segment_spacing, METRIC_LIMIT as int)
        &&& within(self.digit_median, METRIC_LIMIT as int)
        &&& within(self.digit_shearing, METRIC_LIMIT as int)
        &&& within(self.digit_spacing, METRIC_LIMIT as int)
        &&& within(self.margin_horizontal, METRIC_LIMIT as int)
        &&& within(self.margin_vertical, METRIC_LIMIT as int)
    }
}

/// The part of `length` that `fraction`, a count of thousandths, stands for.
pub open spec fn scaled(fraction: int, length: int) -> int {
    fraction * length / 1000
}

/// The measures of a digit of the given height in a style. The thickness,
/// the spacing of the segments and the vertical margin are fractions of the
/// digit height, the median is a fraction of half of it, and the width is
/// the height times the ratio; the shearing, the spacing of the digits and
/// the horizontal margin are fractions of the digit width.
pub open spec fn absolute_metrics(style: SevenSegmentStyle, digit_height: u16) -> Metrics {
    let height = digit_height * TICKS_PER_UNIT;
    let width = scaled(style.digit_ratio as int, height);
    Metrics {
        digit_width: width,
        digit_height: height,
        segment_thickness: scaled(style.segment_thickness as int, height),
        segment_spacing: scaled(style.segment_spacing as int, height),
        digit_median: scaled(style.digit_median as int, height / 2),
        digit_shearing: scaled(style.digit_shearing as int, width),
        digit_spacing: scaled(style.digit_spacing as int, width),
        margin_horizontal: scaled(style.margin_horizontal as int, width),
        margin_vertical: scaled(style.margin_vertical as int, height),
    }
}

/// A fraction of a whole number of thousands is taken without remainder.
pub proof fn lemma_scaled_exact(fraction: int, length: int, k: int)
    ensures
        scaled(fraction, length * (k * 1000)) == fraction * length * k,
{
    assert(fraction * (length * (k * 1000)) == 1000 * (fraction * length * k))
        by (nonlinear_arith);
    lemma_div_multiples_vanish(fraction * length * k, 1000);
}

impl<'a> SevenSegmentStyle<'a> {
    /// Turns the relative metrics of the style into absolute ones.
    pub fn metrics(&self, digit_height: u16) -> (m: DigitMetrics)
        ensures
            m@ == absolute_metrics(*self, digit_height),
            m@.within_limits(),
    {
        let h: i128 = digit_height as i128;
        let ratio: i128 = self.digit_ratio as i128;
        proof {
            lemma_product_bound(self.segment_thickness as int, h as int, 32768, 65535);
            lemma_product_bound(self.segment_spacing as int, h as int, 32768, 65535);
            lemma_product_bound(self.digit_median as int, h as int, 32768, 65535);
            lemma_product_bound(self.margin_vertical as int, h as int, 32768, 65535);
            lemma_product_bound(ratio as int, h as int, 32768, 65535);
            lemma_product_bound(self.digit_shearing as int, ratio * h, 32768, 2_147_450_880);
            lemma_product_bound(self.digit_spacing as int, ratio * h, 32768, 2_147_450_880);
            lemma_product_bound(self.margin_horizontal as int, ratio * h, 32768, 2_147_450_880);
            lemma_scaled_exact(self.segment_thickness as int, h as int, 4_000_000);
            lemma_scaled_exact(self.segment_spacing as int, h as int, 4_000_000);
            lemma_scaled_exact(self.digit_median as int, h as int, 2_000_000);
            lemma_scaled_exact(self.margin_vertical as int, h as int, 4_000_000);
            lemma_scaled_exact(ratio as int, h as int, 4_000_000);
            lemma_scaled_exact(self.digit_shearing as int, ratio * h, 4_000);
            lemma_scaled_exact(self.digit_spacing as int, ratio * h, 4_000);
            lemma_scaled_exact(self.margin_horizontal as int, ratio * h, 4_000);
        }
        let rh: i128 = ratio * h;
        DigitMetrics {
            digit_width: rh * 4_000_000,
            digit_height: h * TICKS_PER_UNIT,
            segment_thickness: (self.segment_thickness as i128) * h * 4_000_000,
            segment_spacing: (self.segment_spacing as i128) * h * 4_000_000,
            digit_median: (self.digit_median as i128) * h * 2_000_000,
            digit_shearing: (self.digit_shearing as i128) * rh * 4_000,
            digit_spacing: (self.digit_spacing as i128) * rh * 4_000,
            margin_horizontal: (self.margin_horizontal as i128) * rh * 4_000,
            margin_vertical: (self.margin_vertical as i128) * h * 4_000_000,
        }
    }
}

} // verus!
