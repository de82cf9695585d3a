//! The outlines of the seven segments of a digit.
//!
//! A segment is a hexagon: a bar with a point at either end. Its corners
//! are sums of half the digit width, half the digit height, the thickness
//! of the segments and its half and quarter, the spacing between segments,
//! and the median, which moves the middle segment and the ends of its
//! neighbours off the centre line. A slanted digit pushes every corner
//! sideways in proportion to its height above or below the centre.

use vstd::prelude::*;
use crate::geometry::{
    floor_div, lemma_product_bound, within, Offset, Point, Position, CENTER_LIMIT, METRIC_LIMIT,
    OFFSET_LIMIT,
};
use crate::metrics::{absolute_metrics, DigitMetrics, Metrics};
use crate::style::SevenSegmentStyle;

verus! {

impl Metrics {
    /// How far the slant of the digit pushes a point to the left that lies
    /// `dy` below the centre line. The push grows linearly with the
    /// distance from the centre line and reaches the shearing at the bottom
    /// edge, half a digit height below the centre; above the centre line it
    /// goes to the right. A digit without height is not slanted.
    pub open spec fn shear_at(&self, dy: int) -> int {
        let half_height = self.digit_height / 2;
        if half_height == 0 {
            0
        } else {
            dy * self.digit_shearing / half_height
        }
    }

    /// The place of a point of the upright digit once the digit is slanted
    /// and centred on `center`.
    pub open spec fn project(&self, center: Position, offset: Offset) -> Position {
        Position { x: center.x + offset.dx - self.shear_at(offset.dy), y: center.y + offset.dy }
    }

    pub open spec fn top_outline(&self) -> Seq<Offset> {
        let w = self.digit_width / 2;
        let h = self.digit_height / 2;
        let t = self.segment_thickness;
        let s = self.segment_spacing;
        seq![
            Offset { dx: -w + t / 4 + s, dy: -h + t / 4 },
            Offset { dx: -w + t / 2 + s, dy: -h },
            Offset { dx: w - t / 2 - s, dy: -h },
            Offset { dx: w - t / 4 - s, dy: -h + t / 4 },
            Offset { dx: w - t - s, dy: -h + t },
            Offset { dx: -w + t + s, dy: -h + t },
        ]
    }

    pub open spec fn upper_right_outline(&self) -> Seq<Offset> {
        let w = self.digit_width / 2;
        let h = self.digit_height / 2;
        let t = self.segment_thickness;
        let s = self.segment_spacing;
        let m = self.digit_median;
        seq![
            Offset { dx: w - t, dy: -h + t + s },
            Offset { dx: w - t / 4, dy: -h + t / 4 + s },
            Offset { dx: w, dy: -h + t / 2 + s },
            Offset { dx: w, dy: -(t / 2) - s + m },
            Offset { dx: w - t / 2, dy: -s + m },
            Offset { dx: w - t, dy: -(t / 2) - s + m },
        ]
    }

    pub open spec fn lower_right_outline(&self) -> Seq<Offset> {
        let w = self.digit_width / 2;
        let h = self.digit_height / 2;
        let t = self.segment_thickness;
        let s = self.segment_spacing;
        let m = self.digit_median;
        seq![
            Offset { dx: w - t, dy: h - t - s },
            Offset { dx: w - t / 4, dy: h - t / 4 - s },
            Offset { dx: w, dy: h - t / 2 - s },
            Offset { dx: w, dy: t / 2 + s + m },
            Offset { dx: w - t / 2, dy: s + m },
            Offset { dx: w - t, dy: t / 2 + s + m },
        ]
    }

    pub open spec fn bottom_outline(&self) -> Seq<Offset> {
        let w = self.digit_width / 2;
        let h = self.digit_height / 2;
        let t = self.segment_thickness;
        let s = self.segment_spacing;
        seq![
            Offset { dx: -w + t / 4 + s, dy: h - t / 4 },
            Offset { dx: -w + t / 2 + s, dy: h },
            Offset { dx: w - t / 2 - s, dy: h },
            Offset { dx: w - t / 4 - s, dy: h - t / 4 },
            Offset { dx: w - t - s, dy: h - t },
            Offset { dx: -w + t + s, dy: h - t },
        ]
    }

    pub open spec fn lower_left_outline(&self) -> Seq<Offset> {
        let w = self.digit_width / 2;
        let h = self.digit_height / 2;
        let t = self.segment_thickness;
        let s = self.segment_spacing;
        let m = self.digit_median;
        seq![
            Offset { dx: -w + t, dy: h - t - s },
            Offset { dx: -w + t / 4, dy: h - t / 4 - s },
            Offset { dx: -w, dy: h - t / 2 - s },
            Offset { dx: -w, dy: t / 2 + s + m },
            Offset { dx: -w + t / 2, dy: s + m },
            Offset { dx: -w + t, dy: t / 2 + s + m },
        ]
    }

    pub open spec fn upper_left_outline(&self) -> Seq<Offset> {
        let w = self.digit_width / 2;
        let h = self.digit_height / 2;
        let t = self.segment_thickness;
        let s = self.segment_spacing;
        let m = self.digit_median;
        seq![
            Offset { dx: -w + t, dy: -h + t + s },
            Offset { dx: -w + t / 4, dy: -h + t / 4 + s },
            Offset { dx: -w, dy: -h + t / 2 + s },
            Offset { dx: -w, dy: -(t / 2) - s + m },
            Offset { dx: -w + t / 2, dy: -s + m },
            Offset { dx: -w + t, dy: -(t / 2) - s + m },
        ]
    }

    pub open spec fn middle_outline(&self) -> Seq<Offset> {
        let w = self.digit_width / 2;
        let t = self.segment_thickness;
        let s = self.segment_spacing;
        let m = self.digit_median;
        seq![
            Offset { dx: -w + t / 2 + s, dy: m },
            Offset { dx: -w + t + s, dy: -(t / 2) + m },
            Offset { dx: w - t - s, dy: -(t / 2) + m },
            Offset { dx: w - t / 2 - s, dy: m },
            Offset { dx: w - t - s, dy: t / 2 + m },
            Offset { dx: -w + t + s, dy: t / 2 + m },
        ]
    }

    /// The six corners of a segment of the upright digit, as offsets from
    /// its centre. Segments are numbered as the bits of a glyph are: top,
    /// upper right, lower right, bottom, lower left, upper left, middle.
    /// Each is a hexagon with a point at either end; the points taper at a
    /// quarter and at half of the thickness.
    pub open spec fn outline(&self, segment: int) -> Seq<Offset> {
        if segment == 0 {
            self.top_outline()
        } else if segment == 1 {
            self.upper_right_outline()
        } else if segment == 2 {
            self.lower_right_outline()
        } else if segment == 3 {
            self.bottom_outline()
        } else if segment == 4 {
            self.lower_left_outline()
        } else if segment == 5 {
            self.upper_left_outline()
        } else {
            self.middle_outline()
        }
    }

    /// Corner `vertex` of segment `segment` of the digit centred on `center`.
    pub open spec fn vertex(&self, center: Position, segment: int, vertex: int) -> Position {
        self.project(center, self.outline(segment)[vertex])
    }
}

impl DigitMetrics {
    /// The leftward push of the slant on a point `dy` below the centre line.
    pub fn shear_at(&self, dy: i128) -> (shift: i128)
        requires
            self@.within_limits(),
            within(dy as int, OFFSET_LIMIT as int),
        ensures
            shift == self@.shear_at(dy as int),
            within(shift as int, OFFSET_LIMIT * METRIC_LIMIT),
    {
        let half_height: i128 = self.digit_height / 2;
        if half_height == 0 {
            0
        } else {
            proof {
                lemma_product_bound(
                    dy as int,
                    self.digit_shearing as int,
                    OFFSET_LIMIT as int,
                    METRIC_LIMIT as int,
                );
            }
            let product: i128 = dy * self.digit_shearing;
            assert(within(product / half_height, OFFSET_LIMIT * METRIC_LIMIT)) by (nonlinear_arith)
                requires
                    half_height > 0,
                    within(product as int, OFFSET_LIMIT * METRIC_LIMIT),
            ;
            floor_div(product, half_height)
        }
    }

    /// The point at `(dx, dy)` from the centre of the upright digit, after
    /// the slant.
    pub fn project(&self, center: Point, dx: i128, dy: i128) -> (p: Point)
        requires
            self@.within_limits(),
            within(center.x as int, CENTER_LIMIT as int),
            within(center.y as int, CENTER_LIMIT as int),
            within(dx as int, OFFSET_LIMIT as int),
            within(dy as int, OFFSET_LIMIT as int),
        ensures
            p@ == self@.project(center@, Offset { dx: dx as int, dy: dy as int }),
    {
        let shift: i128 = self.shear_at(dy);
        Point { x: center.x + dx - shift, y: center.y + dy }
    }
}

/// The lengths that the corners of the segments are made of.
struct Parts {
    half_width: i128,
    half_height: i128,
    thickness: i128,
    half_thickness: i128,
    quarter_thickness: i128,
    spacing: i128,
    median: i128,
}

impl Parts {
    spec fn of(&self, m: Metrics) -> bool {
        &&& self.half_width == m.digit_width / 2
        &&& self.half_height == m.digit_height / 2
        &&& self.thickness == m.segment_thickness
        &&& self.half_thickness == m.segment_thickness / 2
        &&& self.quarter_thickness == m.segment_thickness / 4
        &&& self.spacing == m.segment_spacing
        &&& self.median == m.digit_median
    }
}

/// The number of the horizontal segment on the upper or the lower edge.
spec fn edge_segment(lower: bool) -> int {
    if lower {
        3
    } else {
        0
    }
}

/// The number of the vertical segment in one quarter of the digit.
spec fn side_segment(left: bool, lower: bool) -> int {
    if left {
        if lower {
            4
        } else {
            5
        }
    } else {
        if lower {
            2
        } else {
            1
        }
    }
}

/// `length` towards the right or the bottom, or as far towards the left or
/// the top.
fn towards(length: i128, opposite: bool) -> (signed: i128)
    requires
        within(length as int, OFFSET_LIMIT as int),
    ensures
        signed == (if opposite {
            -length
        } else {
            length as int
        }),
{
    if opposite {
        -length
    } else {
        length
    }
}

impl DigitMetrics {
    fn parts(&self) -> (parts: Parts)
        requires
            self@.within_limits(),
        ensures
            parts.of(self@),
    {
        Parts {
            half_width: floor_div(self.digit_width, 2),
            half_height: floor_div(self.digit_height, 2),
            thickness: self.segment_thickness,
            half_thickness: floor_div(self.segment_thickness, 2),
            quarter_thickness: floor_div(self.segment_thickness, 4),
            spacing: self.segment_spacing,
            median: self.digit_median,
        }
    }

    /// The segment along the upper edge, or its mirror image along the
    /// lower edge.
    fn edge_polygon(&self, parts: &Parts, center: Point, lower: bool) -> (polygon: [Point; 6])
        requires
            self@.within_limits(),
            parts.of(self@),
            within(center.x as int, CENTER_LIMIT as int),
            within(center.y as int, CENTER_LIMIT as int),
        ensures
            forall|v: int|
                0 <= v < 6 ==> (#[trigger] polygon[v])@ == self@.vertex(
                    center@,
                    edge_segment(lower),
                    v,
                ),
    {
        let w: i128 = parts.half_width;
        let t: i128 = parts.thickness;
        let t2: i128 = parts.half_thickness;
        let t4: i128 = parts.quarter_thickness;
        let s: i128 = parts.spacing;
        let upper: bool = !lower;
        let edge: i128 = towards(parts.half_height, upper);
        let taper: i128 = towards(parts.half_height - t4, upper);
        let inner: i128 = towards(parts.half_height - t, upper);
        [
            self.project(center, -w + t4 + s, taper),
            self.project(center, -w + t2 + s, edge),
            self.project(center, w - t2 - s, edge),
            self.project(center, w - t4 - s, taper),
            self.project(center, w - t - s, inner),
            self.project(center, -w + t + s, inner),
        ]
    }

    /// One of the four upright segments. Each runs from a corner of the
    /// digit to the median; those on the left mirror those on the right,
    /// and the lower ones mirror the upper ones but for the median, which
    /// lies on the same side of the centre for both.
    fn side_polygon(&self, parts: &Parts, center: Point, left: bool, lower: bool) -> (polygon: [
        Point;
        6
    ])
        requires
            self@.within_limits(),
            parts.of(self@),
            within(center.x as int, CENTER_LIMIT as int),
            within(center.y as int, CENTER_LIMIT as int),
        ensures
            forall|v: int|
                0 <= v < 6 ==> (#[trigger] polygon[v])@ == self@.vertex(
                    center@,
                    side_segment(left, lower),
                    v,
                ),
    {
        let w: i128 = parts.half_width;
        let h: i128 = parts.half_height;
        let t: i128 = parts.thickness;
        let t2: i128 = parts.half_thickness;
        let t4: i128 = parts.quarter_thickness;
        let s: i128 = parts.spacing;
        let m: i128 = parts.median;
        let upper: bool = !lower;
        let outer: i128 = towards(w, left);
        let taper: i128 = towards(w - t4, left);
        let ridge: i128 = towards(w - t2, left);
        let inner: i128 = towards(w - t, left);
        [
            self.project(center, inner, towards(h - t - s, upper)),
            self.project(center, taper, towards(h - t4 - s, upper)),
            self.project(center, outer, towards(h - t2 - s, upper)),
            self.project(center, outer, towards(t2 + s, upper) + m),
            self.project(center, ridge, towards(s, upper) + m),
            self.project(center, inner, towards(t2 + s, upper) + m),
        ]
    }

    fn middle_polygon(&self, parts: &Parts, center: Point) -> (polygon: [Point; 6])
        requires
            self@.within_limits(),
            parts.of(self@),
            within(center.x as int, CENTER_LIMIT as int),
            within(center.y as int, CENTER_LIMIT as int),
        ensures
            forall|v: int| 0 <= v < 6 ==> (#[trigger] polygon[v])@ == self@.vertex(center@, 6, v),
    {
        let w: i128 = parts.half_width;
        let t: i128 = parts.thickness;
        let t2: i128 = parts.half_thickness;
        let s: i128 = parts.spacing;
        let m: i128 = parts.median;
        [
            self.project(center, -w + t2 + s, m),
            self.project(center, -w + t + s, -t2 + m),
            self.project(center, w - t - s, -t2 + m),
            self.project(center, w - t2 - s, m),
            self.project(center, w - t - s, t2 + m),
            self.project(center, -w + t + s, t2 + m),
        ]
    }

    /// The outlines of the seven segments of the digit centred on
    /// `center`, in the order of the bits of a glyph.
    pub fn segment_polygons(&self, center: Point) -> (segments: [[Point; 6]; 7])
        requires
            self@.within_limits(),
            within(center.x as int, CENTER_LIMIT as int),
            within(center.y as int, CENTER_LIMIT as int),
        ensures
            forall|k: int, v: int|
                0 <= k < 7 && 0 <= v < 6 ==> #[trigger] segments[k][v]@ == self@.vertex(
                    center@,
                    k,
                    v,
                ),
    {
        let parts = self.parts();
        [
            self.edge_polygon(&parts, center, false),
            self.side_polygon(&parts, center, false, false),
            self.side_polygon(&parts, center, false, true),
            self.edge_polygon(&parts, center, true),
            self.side_polygon(&parts, center, true, true),
            self.side_polygon(&parts, center, true, false),
            self.middle_polygon(&parts, center),
        ]
    }
}

/// The outlines of the seven segments of one digit: for each segment, in
/// the order of the bits of a glyph, its six corners in ticks.
pub fn segments_for_digit(
    style: &SevenSegmentStyle,
    digit_height: u16,
    digit_center: Point,
) -> (segments: [[Point; 6]; 7])
    requires
        within(digit_center.x as int, CENTER_LIMIT as int),
        within(digit_center.y as int, CENTER_LIMIT as int),
    ensures
        segments@.len() == 7,
        forall|k: int| 0 <= k < 7 ==> (#[trigger] segments[k])@.len() == 6,
        forall|k: int, v: int|
            0 <= k < 7 && 0 <= v < 6 ==> #[trigger] segments[k][v]@ == absolute_metrics(
                *style,
                digit_height,
            ).vertex(digit_center@, k, v),
{
    let metrics = style.metrics(digit_height);
    metrics.segment_polygons(digit_center)
}

/// A point on the centre line of a digit stays where it is, however much
/// the digit is slanted.
pub proof fn lemma_no_shear_on_center_line(m: Metrics, center: Position, dx: int)
    ensures
        m.shear_at(0) == 0,
        m.project(center, Offset { dx, dy: 0 }) == (Position { x: center.x + dx, y: center.y }),
{
    let half_height = m.digit_height / 2;
    if half_height != 0 {
        assert(0 * m.digit_shearing == 0);
        assert(0int / half_height == 0) by (nonlinear_arith)
            requires
                half_height != 0,
        ;
    }
}

/// An upright style moves no point.
pub proof fn lemma_no_shear_without_shearing(m: Metrics, dy: int)
    requires
        m.digit_shearing == 0,
    ensures
        m.shear_at(dy) == 0,
{
    let half_height = m.digit_height / 2;
    if half_height != 0 {
        assert(dy * 0 == 0);
        assert(0int / half_height == 0) by (nonlinear_arith)
            requires
                half_height != 0,
        ;
    }
}

} // verus!
