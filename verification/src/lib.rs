//! Geometry and fonts of seven-segment displays, in exact integer arithmetic.
//!
//! A display is drawn from a text, a style and a digit height. The font
//! gives each character a mask of lit segments; the style and the digit
//! height give the measures of a digit; from these come the outline of
//! each segment, the place of each digit and the size of the whole. The
//! result is a list of polygons with their paint, for a host toolkit to
//! draw.

pub mod exactness;
pub mod font;
pub mod geometry;
pub mod layout;
pub mod metrics;
pub mod segments;
pub mod style;
pub mod widget;

pub use crate::font::{SevenSegmentFont, DEFAULT_FONT};
pub use crate::geometry::{Point, TICKS_PER_UNIT};
pub use crate::layout::Size;
pub use crate::metrics::DigitMetrics;
pub use crate::segments::segments_for_digit;
pub use crate::style::{Color, SevenSegmentPreset, SevenSegmentStyle, Stroke};
pub use crate::widget::{paint_digit, SegmentShape, SevenSegmentWidget};
