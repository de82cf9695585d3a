//! Display styles: metrics as fractions of the digit size, and paint.
//!
//! Every fraction is a signed count of thousandths, so `100` stands for a
//! tenth and `-50` for minus a twentieth. Nothing restricts the values: a
//! caller who wants well-formed segments keeps the spacing under half the
//! thickness.

use vstd::prelude::*;
use crate::font::{SevenSegmentFont, DEFAULT_FONT};

verus! {

/// A colour, eight bits per channel, with the opacity already multiplied
/// into the three colour channels.
#[derive(Copy, Clone, Debug, PartialEq, Eq, Structural)]
pub struct Color {
    pub r: u8,
    pub g: u8,
    pub b: u8,
    pub a: u8,
}

impl Color {
    /// The opaque colour with the given channels.
    pub fn from_rgb(r: u8, g: u8, b: u8) -> (color: Color)
        ensures
            color == (Color { r, g, b, a: 255 }),
    {
        Color { r, g, b, a: 255 }
    }
}

/// The outline of a shape. The width is in thousandths of a length unit.
#[derive(Copy, Clone, Debug, PartialEq, Eq, Structural)]
pub struct Stroke {
    pub width: u16,
    pub color: Color,
}

impl Stroke {
    /// The outline of the given width, in thousandths of a length unit.
    pub fn new(width: u16, color: Color) -> (stroke: Stroke)
        ensures
            stroke == (Stroke { width, color }),
    {
        Stroke { width, color }
    }

    /// The outline that draws nothing.
    pub fn none() -> (stroke: Stroke)
        ensures
            stroke == (Stroke { width: 0, color: Color { r: 0, g: 0, b: 0, a: 0 } }),
    {
        Stroke { width: 0, color: Color { r: 0, g: 0, b: 0, a: 0 } }
    }
}

/// How a display looks: its proportions, its paint and its font.
#[derive(Copy, Clone)]
pub struct SevenSegmentStyle<'a> {
    // Segment metrics, in thousandths of the digit height
    pub segment_spacing: i16,
    pub segment_thickness: i16,
    // Digit metrics: the median in thousandths of half the digit height,
    // the ratio in thousandths of the digit height, the shearing and the
    // spacing in thousandths of the digit width
    pub digit_median: i16,
    pub digit_ratio: i16,
    pub digit_shearing: i16,
    pub digit_spacing: i16,
    // Widget metrics, in thousandths of the digit width and height
    pub margin_horizontal: i16,
    pub margin_vertical: i16,
    // Segment appearance
    pub segment_on_color: Color,
    pub segment_on_stroke: Stroke,
    pub segment_off_color: Color,
    pub segment_off_stroke: Stroke,
    // Digit appearance
    pub digit_font: &'a SevenSegmentFont,
    // Widget appearance
    pub background_color: Color,
}

/// The names of the ready-made styles. Not every name has a style yet.
#[derive(Copy, Clone, Debug)]
pub enum SevenSegmentPreset {
    Default,
    DeLoreanRed,
    DeLoreanGreen,
    DeLoreanAmber,
}

/// The style of the `Default` preset: green segments on a dark green ground.
pub open spec fn default_style() -> SevenSegmentStyle<'static> {
    SevenSegmentStyle {
        segment_spacing: 20,
        segment_thickness: 100,
        digit_median: (-50) as i16,
        digit_ratio: 500,
        digit_shearing: 100,
        digit_spacing: 200,
        margin_horizontal: 200,
        margin_vertical: 100,
        segment_on_color: Color { r: 0x00, g: 0xF0, b: 0x00, a: 255 },
        segment_on_stroke: Stroke { width: 2000, color: Color { r: 0x00, g: 0xFF, b: 0x00, a: 255 } },
        segment_off_color: Color { r: 0x00, g: 0x30, b: 0x00, a: 255 },
        segment_off_stroke: Stroke { width: 2000, color: Color { r: 0x00, g: 0x28, b: 0x00, a: 255 } },
        digit_font: &DEFAULT_FONT,
        background_color: Color { r: 0x00, g: 0x20, b: 0x00, a: 255 },
    }
}

impl Default for SevenSegmentStyle<'static> {
    fn default() -> (style: Self)
        ensures
            style == default_style(),
    {
        SevenSegmentStyle {
            segment_spacing: 20,
            segment_thickness: 100,
            digit_median: -50,
            digit_ratio: 500,
            digit_shearing: 100,
            digit_spacing: 200,
            margin_horizontal: 200,
            margin_vertical: 100,
            segment_on_color: Color::from_rgb(0x00, 0xF0, 0x00),
            segment_on_stroke: Stroke::new(2000, Color::from_rgb(0x00, 0xFF, 0x00)),
            segment_off_color: Color::from_rgb(0x00, 0x30, 0x00),
            segment_off_stroke: Stroke::new(2000, Color::from_rgb(0x00, 0x28, 0x00)),
            digit_font: &DEFAULT_FONT,
            background_color: Color::from_rgb(0x00, 0x20, 0x00),
        }
    }
}

impl SevenSegmentPreset {
    /// Whether the preset has a style yet.
    pub open spec fn is_defined(&self) -> bool {
        self.style_of() is Some
    }

    /// The style a preset names, if it has been given one.
    pub open spec fn style_of(&self) -> Option<SevenSegmentStyle<'static>> {
        match *self {
            SevenSegmentPreset::Default => Some(default_style()),
            SevenSegmentPreset::DeLoreanRed => None,
            SevenSegmentPreset::DeLoreanGreen => None,
            SevenSegmentPreset::DeLoreanAmber => None,
        }
    }

    /// Resolves the preset to its style; `None` for a preset that is named
    /// but not designed yet.
    pub fn style(&self) -> (style: Option<SevenSegmentStyle<'static>>)
        ensures
            style == self.style_of(),
    {
        match *self {
            SevenSegmentPreset::Default => Some(SevenSegmentStyle::default()),
            SevenSegmentPreset::DeLoreanRed => None,
            SevenSegmentPreset::DeLoreanGreen => None,
            SevenSegmentPreset::DeLoreanAmber => None,
        }
    }
}

} // verus!
