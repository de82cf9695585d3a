//! Points, lengths and the limits of the arithmetic.
//!
//! Lengths are integers. A digit height is given in whole length units;
//! every length and coordinate that is computed from it is in ticks, of
//! which [`TICKS_PER_UNIT`] make one length unit. Coordinates are kept in
//! 128 bits, which is wide enough for any style, any digit height and any
//! number of digits.

use vstd::prelude::*;

verus! {

/// Ticks in a length unit: four thousand million. A tick is a quarter of a
/// thousandth of a thousandth of a thousandth of a length unit, because
/// the slant of a corner is a product of three fractions and the finest
/// division in an outline is a quarter. So every corner of every segment
/// is a whole number of ticks.
pub const TICKS_PER_UNIT: i128 = 4_000_000_000;

/// Largest magnitude of a metric that the polygon generator accepts.
pub const METRIC_LIMIT: i128 = 0x0800_0000_0000_0000;

/// Largest magnitude of an offset from the centre of a digit.
pub const OFFSET_LIMIT: i128 = 0x2000_0000_0000_0000;

/// Largest magnitude of a coordinate of the centre of a digit.
pub const CENTER_LIMIT: i128 = 0x4000_0000_0000_0000_0000_0000_0000_0000;

/// A point of the plane as the contracts see it.
pub struct Position {
    pub x: int,
    pub y: int,
}

/// A displacement from the centre of an upright digit.
pub struct Offset {
    pub dx: int,
    pub dy: int,
}

/// A point of the plane, in ticks. The y axis points down.
#[derive(Copy, Clone, Debug, PartialEq, Eq, Structural)]
pub struct Point {
    pub x: i128,
    pub y: i128,
}

impl View for Point {
    type V = Position;

    open spec fn view(&self) -> Position {
        Position { x: self.x as int, y: self.y as int }
    }
}

/// Whether the magnitude of `value` is at most `limit`.
pub open spec fn within(value: int, limit: int) -> bool {
    -limit <= value <= limit
}

/// The quotient of `a` by a positive `d`, rounded down.
pub(crate) fn floor_div(a: i128, d: i128) -> (q: i128)
    requires
        d > 0,
    ensures
        q == a / d,
{
    assert(i128::MIN <= a / d <= i128::MAX) by (nonlinear_arith)
        requires
            d > 0,
            i128::MIN <= a <= i128::MAX,
    ;
    match a.checked_div_euclid(d) {
        Some(q) => q,
        None => 0,
    }
}

pub(crate) proof fn lemma_product_bound(a: int, b: int, la: int, lb: int)
    by (nonlinear_arith)
    requires
        -la <= a <= la,
        -lb <= b <= lb,
    ensures
        -(la * lb) <= a * b <= la * lb,
{
}

} // verus!
