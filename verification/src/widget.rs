//! A seven-segment display: a text, a number of digits, a digit height and
//! a style, and the shapes that draw it.
//!
//! The display has as many digit positions as its digit count says. The
//! characters of the text fill them from the left; positions beyond the
//! end of the text are blank, and characters beyond the last position are
//! not drawn. Every position shows all seven segments, each in the lit or
//! in the unlit paint of the style.

use vstd::prelude::*;
use crate::font::{
    glyph_bits, glyph_for_char, lemma_blank_mask_is_dark, segment_is_on, segment_lit,
    SEGMENT_COUNT,
};
use crate::geometry::{within, Point, Position, CENTER_LIMIT};
use crate::metrics::{absolute_metrics, DigitMetrics, Metrics};
use crate::layout::{Size, ORIGIN_LIMIT};
use crate::style::{default_style, Color, SevenSegmentPreset, SevenSegmentStyle, Stroke};

verus! {

/// One segment, ready to be drawn: a convex polygon with its paint.
#[derive(Copy, Clone, Debug, PartialEq, Eq)]
pub struct SegmentShape {
    pub points: [Point; 6],
    pub fill: Color,
    pub stroke: Stroke,
}

impl<'a> SevenSegmentStyle<'a> {
    pub open spec fn segment_fill(&self, lit: bool) -> Color {
        if lit {
            self.segment_on_color
        } else {
            self.segment_off_color
        }
    }

    pub open spec fn segment_stroke(&self, lit: bool) -> Stroke {
        if lit {
            self.segment_on_stroke
        } else {
            self.segment_off_stroke
        }
    }
}

/// Whether `shape` is segment `segment` of a digit that shows `bits` and
/// is centred on `center`.
pub open spec fn depicts(
    shape: SegmentShape,
    style: SevenSegmentStyle,
    m: Metrics,
    bits: u8,
    center: Position,
    segment: int,
) -> bool {
    &&& forall|v: int| 0 <= v < 6 ==> (#[trigger] shape.points[v])@ == m.vertex(center, segment, v)
    &&& shape.fill == style.segment_fill(segment_lit(bits, segment))
    &&& shape.stroke == style.segment_stroke(segment_lit(bits, segment))
}

fn segment_shape(
    style: &SevenSegmentStyle,
    polygons: &[[Point; 6]; 7],
    digit_bits: u8,
    segment: usize,
) -> (shape: SegmentShape)
    requires
        segment < 7,
    ensures
        shape.points == polygons[segment as int],
        shape.fill == style.segment_fill(segment_lit(digit_bits, segment as int)),
        shape.stroke == style.segment_stroke(segment_lit(digit_bits, segment as int)),
{
    let segment_on = segment_is_on(digit_bits, segment);
    if segment_on {
        SegmentShape {
            points: polygons[segment],
            fill: style.segment_on_color,
            stroke: style.segment_on_stroke,
        }
    } else {
        SegmentShape {
            points: polygons[segment],
            fill: style.segment_off_color,
            stroke: style.segment_off_stroke,
        }
    }
}

/// The seven shapes of one digit, in the order of the bits of a glyph. A
/// segment whose bit is set in `digit_bits` has the lit paint of the style,
/// every other one the unlit paint.
pub fn paint_digit(
    style: &SevenSegmentStyle,
    metrics: &DigitMetrics,
    digit_bits: u8,
    digit_center: Point,
) -> (shapes: [SegmentShape; 7])
    requires
        metrics@.within_limits(),
        within(digit_center.x as int, CENTER_LIMIT as int),
        within(digit_center.y as int, CENTER_LIMIT as int),
    ensures
        forall|k: int|
            0 <= k < 7 ==> depicts(
                #[trigger] shapes[k],
                *style,
                metrics@,
                digit_bits,
                digit_center@,
                k,
            ),
{
    let polygons = metrics.segment_polygons(digit_center);
    [
        segment_shape(style, &polygons, digit_bits, 0),
        segment_shape(style, &polygons, digit_bits, 1),
        segment_shape(style, &polygons, digit_bits, 2),
        segment_shape(style, &polygons, digit_bits, 3),
        segment_shape(style, &polygons, digit_bits, 4),
        segment_shape(style, &polygons, digit_bits, 5),
        segment_shape(style, &polygons, digit_bits, 6),
    ]
}

/// What a display is asked to show.
pub struct DisplayRequest<'a> {
    pub text: Seq<char>,
    pub digit_count: nat,
    pub digit_height: u16,
    pub style: SevenSegmentStyle<'a>,
}

impl<'a> DisplayRequest<'a> {
    /// The glyph at a digit position: that of the character there, or the
    /// blank glyph beyond the end of the text.
    pub open spec fn glyph_at(&self, index: int) -> u8 {
        if 0 <= index < self.text.len() {
            glyph_bits(*self.style.digit_font, self.text[index])
        } else {
            0u8
        }
    }

    /// The measures of a digit of the display.
    pub open spec fn metrics(&self) -> Metrics {
        absolute_metrics(self.style, self.digit_height)
    }

    /// Whether `shapes` draws the display whose left edge has its middle at
    /// `left_center`: seven shapes for each digit position, from the left,
    /// each digit in the order of the bits of a glyph.
    pub open spec fn drawn_by(&self, shapes: Seq<SegmentShape>, left_center: Position) -> bool {
        &&& shapes.len() == 7 * self.digit_count
        &&& forall|j: int|
            0 <= j < shapes.len() ==> depicts(
                #[trigger] shapes[j],
                self.style,
                self.metrics(),
                self.glyph_at(j / 7),
                self.metrics().digit_center(left_center, (j / 7) as nat),
                j % 7,
            )
    }
}

/// A display under construction: made by [`SevenSegmentWidget::new`] or
/// [`SevenSegmentWidget::from_string`], then changed one setting at a time.
pub struct SevenSegmentWidget<'a> {
    display_string: String,
    digit_count: usize,
    digit_height: u16,
    style: SevenSegmentStyle<'a>,
}

impl<'a> View for SevenSegmentWidget<'a> {
    type V = DisplayRequest<'a>;

    closed spec fn view(&self) -> DisplayRequest<'a> {
        DisplayRequest {
            text: self.display_string@,
            digit_count: self.digit_count as nat,
            digit_height: self.digit_height,
            style: self.style,
        }
    }
}

impl<'a> SevenSegmentWidget<'a> {
    /// An empty display without digits, 48 length units high, in the
    /// default style.
    pub fn new() -> (widget: Self)
        ensures
            widget@ == (DisplayRequest {
                text: Seq::<char>::empty(),
                digit_count: 0,
                digit_height: 48,
                style: default_style(),
            }),
    {
        Self {
            display_string: String::new(),
            digit_count: 0,
            digit_height: 48,
            style: SevenSegmentStyle::default(),
        }
    }

    /// A display of `display_string` with one digit for each of its bytes.
    pub fn from_string(display_string: &str) -> (widget: Self)
        ensures
            widget@ == (DisplayRequest {
                text: display_string@,
                digit_count: display_string.len() as nat,
                digit_height: 48,
                style: default_style(),
            }),
    {
        Self::new().display_string(display_string).digit_count(display_string.len())
    }

    /// Replaces the text and leaves the number of digits as it is.
    pub fn display_string(self, display_string: &str) -> (widget: Self)
        ensures
            widget@ == (DisplayRequest { text: display_string@, ..self@ }),
    {
        Self { display_string: display_string.to_owned(), ..self }
    }

    /// Sets the number of digit positions, whatever the length of the text.
    pub fn digit_count(self, digit_count: usize) -> (widget: Self)
        ensures
            widget@ == (DisplayRequest { digit_count: digit_count as nat, ..self@ }),
    {
        Self { digit_count, ..self }
    }

    /// Sets the height of a digit, in length units.
    pub fn digit_height(self, digit_height: u16) -> (widget: Self)
        ensures
            widget@ == (DisplayRequest { digit_height, ..self@ }),
    {
        Self { digit_height, ..self }
    }

    /// Takes the style of a preset that has one.
    pub fn preset(self, preset: SevenSegmentPreset) -> (widget: Self)
        requires
            preset.is_defined(),
        ensures
            preset.style_of() matches Some(style) && widget@ == (DisplayRequest { style, ..self@ }),
    {
        match preset.style() {
            Some(style) => Self { style, ..self },
            None => self,
        }
    }

    /// Replaces the style.
    pub fn style(self, style: SevenSegmentStyle<'a>) -> (widget: Self)
        ensures
            widget@ == (DisplayRequest { style, ..self@ }),
    {
        Self { style, ..self }
    }

    /// The colour to fill the reserved area with before the shapes are drawn.
    pub fn background_color(&self) -> (color: Color)
        ensures
            color == self@.style.background_color,
    {
        self.style.background_color
    }

    /// The size to reserve for the display.
    pub fn desired_size(&self) -> (size: Size)
        ensures
            size.width == self@.metrics().widget_width(self@.digit_count),
            size.height == self@.metrics().widget_height(),
    {
        self.style.metrics(self.digit_height).widget_size(self.digit_count)
    }

    /// The glyph of each character of the text.
    fn glyphs(&self) -> (glyphs: Vec<u8>)
        ensures
            glyphs@.len() == self@.text.len(),
            forall|i: int| 0 <= i < glyphs@.len() ==> glyphs@[i] == self@.glyph_at(i),
    {
        let mut glyphs: Vec<u8> = Vec::new();
        for c in it: self.display_string.as_str().chars()
            invariant
                it.seq() == self.display_string@,
                glyphs@.len() == it.index(),
                forall|i: int|
                    0 <= i < glyphs@.len() ==> glyphs@[i] == glyph_bits(
                        *self.style.digit_font,
                        it.seq()[i],
                    ),
        {
            glyphs.push(glyph_for_char(self.style.digit_font, c));
        }
        glyphs
    }

    /// The shapes that draw the display, given the middle of the left edge
    /// of the area reserved for it.
    pub fn shapes(&self, left_center: Point) -> (shapes: Vec<SegmentShape>)
        requires
            within(left_center.x as int, ORIGIN_LIMIT as int),
            within(left_center.y as int, ORIGIN_LIMIT as int),
            7 * self@.digit_count <= usize::MAX,
        ensures
            self@.drawn_by(shapes@, left_center@),
    {
        let metrics = self.style.metrics(self.digit_height);
        let glyphs = self.glyphs();
        let mut shapes: Vec<SegmentShape> = Vec::new();
        for digit_index in 0..self.digit_count
            invariant
                metrics@ == self@.metrics(),
                metrics@.within_limits(),
                within(left_center.x as int, ORIGIN_LIMIT as int),
                within(left_center.y as int, ORIGIN_LIMIT as int),
                glyphs@.len() == self@.text.len(),
                forall|i: int| 0 <= i < glyphs@.len() ==> glyphs@[i] == self@.glyph_at(i),
                shapes@.len() == 7 * digit_index,
                forall|j: int|
                    0 <= j < shapes@.len() ==> depicts(
                        #[trigger] shapes@[j],
                        self@.style,
                        self@.metrics(),
                        self@.glyph_at(j / 7),
                        self@.metrics().digit_center(left_center@, (j / 7) as nat),
                        j % 7,
                    ),
        {
            let digit_bits: u8 = if digit_index < glyphs.len() {
                glyphs[digit_index]
            } else {
                0x00
            };
            let digit_center = metrics.digit_center(left_center, digit_index);
            let digit = paint_digit(&self.style, &metrics, digit_bits, digit_center);
            let ghost before = shapes@;
            for segment in 0..SEGMENT_COUNT
                invariant
                    shapes@.len() == before.len() + segment,
                    before.len() == 7 * digit_index,
                    forall|j: int| 0 <= j < before.len() ==> shapes@[j] == before[j],
                    forall|k: int| 0 <= k < segment ==> shapes@[before.len() + k] == digit[k],
            {
                shapes.push(digit[segment]);
            }
            proof {
                assert forall|j: int| 0 <= j < shapes@.len() implies depicts(
                    #[trigger] shapes@[j],
                    self@.style,
                    self@.metrics(),
                    self@.glyph_at(j / 7),
                    self@.metrics().digit_center(left_center@, (j / 7) as nat),
                    j % 7,
                ) by {
                    if j < before.len() {
                        assert(shapes@[j] == before[j]);
                    } else {
                        let k = j - before.len();
                        assert(j / 7 == digit_index && j % 7 == k);
                        assert(shapes@[before.len() + k] == digit[k]);
                    }
                }
            }
        }
        shapes
    }
}

/// A digit position beyond the end of the text shows all of its segments
/// in the unlit paint.
pub proof fn lemma_blank_positions_are_unlit(
    request: DisplayRequest,
    shapes: Seq<SegmentShape>,
    left_center: Position,
    j: int,
)
    requires
        request.drawn_by(shapes, left_center),
        0 <= j < shapes.len(),
        j / 7 >= request.text.len(),
    ensures
        shapes[j].fill == request.style.segment_off_color,
        shapes[j].stroke == request.style.segment_off_stroke,
{
    lemma_blank_mask_is_dark(j % 7);
}

} // verus!
