//! Planning logic for rendering a measurement curve to a raster plot.
//!
//! The library computes everything about a curve plot that can be decided
//! ahead of the actual rasterisation: axis ranges (with the x upper bound
//! rounded up to a whole multiple of ten and a positive floor for the
//! logarithmic y axis), the shared decimal exponent of the y axis, the
//! mantissa strings shown as y tick labels, the manually drawn exponent
//! annotation, and the border segments around the plot area.  Coordinates
//! are carried as decimal fixed-point numbers so that every step of the
//! computation is exact and provable.

pub mod fixed;
pub mod plan;
pub mod style;
pub mod text;

pub use fixed::Fixed;
pub use plan::{DataPoint, RenderPlan, Segment, TextElement};
pub use style::{AxisLabels, ChartLayout, PlotStyle, Rgb};
