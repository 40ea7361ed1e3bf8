//! Style configuration, axis labels and the fixed chart layout.

use vstd::prelude::*;

verus! {

/// An RGB colour triple.
#[derive(Clone, Copy, PartialEq, Eq, Structural, Debug)]
pub struct Rgb {
    pub r: u8,
    pub g: u8,
    pub b: u8,
}

/// Plot style configuration.
#[derive(Clone, Copy, PartialEq, Eq, Structural, Debug)]
pub struct PlotStyle {
    /// Canvas width in pixels.
    pub width: u32,
    /// Canvas height in pixels.
    pub height: u32,
    /// Whether the y axis is meant to use a logarithmic scale.  The
    /// rendering path applies the logarithmic transform unconditionally,
    /// so the flag is carried but not consulted.
    pub log_y: bool,
    /// Whether gridlines and tick labels are drawn.
    pub mesh: bool,
    /// Stroke width of the data curve.
    pub line_width: u32,
    /// Colour of the data curve.
    pub line_color: Rgb,
}

impl Default for PlotStyle {
    /// A 1024x768 canvas with gridlines, a logarithmic y axis and a
    /// medium blue curve of stroke width four.
    fn default() -> (s: Self)
        ensures
            s.width == 1024,
            s.height == 768,
            s.log_y == true,
            s.mesh == true,
            s.line_width == 4,
            s.line_color == (Rgb { r: 83, g: 134, b: 245 }),
    {
        PlotStyle {
            width: 1024,
            height: 768,
            log_y: true,
            mesh: true,
            line_width: 4,
            line_color: Rgb { r: 83, g: 134, b: 245 },
        }
    }
}

/// The axis description texts.
pub struct AxisLabels {
    /// Text under the x axis.
    pub x: String,
    /// Text beside the y axis.
    pub y: String,
}

/// Resolves the axis description texts from the first two column headers
/// of the data file: a missing header falls back to a fixed default.
pub fn resolve_labels(x_header: Option<String>, y_header: Option<String>) -> (r: AxisLabels)
    ensures
        r.x@ == (match x_header {
            Option::Some(h) => h@,
            Option::None => "Frequency (Hz)"@,
        }),
        r.y@ == (match y_header {
            Option::Some(h) => h@,
            Option::None => "Current PSD"@,
        }),
{
    let x = match x_header {
        Option::Some(h) => h,
        Option::None => "Frequency (Hz)".to_owned(),
    };
    let y = match y_header {
        Option::Some(h) => h,
        Option::None => "Current PSD".to_owned(),
    };
    AxisLabels { x, y }
}

/// The fixed frame geometry of the chart: margins, label areas, tick
/// marks, stroke widths and font sizes.
#[derive(Clone, Copy, PartialEq, Eq, Structural, Debug)]
pub struct ChartLayout {
    /// Blank margin around the whole chart, in pixels.
    pub margin: u32,
    /// Height reserved under the plot for x tick and axis labels.
    pub x_label_area: u32,
    /// Width reserved left of the plot for y tick and axis labels.
    pub y_label_area: u32,
    /// Length of the axis tick marks.
    pub tick_mark_size: u32,
    /// Stroke width of the axis lines.
    pub axis_stroke_width: u32,
    /// Stroke width of the rectangular border around the plot area.
    pub border_stroke_width: u32,
    /// Font size of the (empty) caption.
    pub title_font_size: u32,
    /// Font size of the axis description texts.
    pub axis_label_font_size: u32,
    /// Font size of the tick labels.
    pub tick_label_font_size: u32,
}

/// The layout every plot uses: a 50 pixel margin, label areas sized for
/// large fonts, and black axis and border strokes of width three.
pub fn chart_layout() -> (l: ChartLayout)
    ensures
        l.margin == 50,
        l.x_label_area == 85,
        l.y_label_area == 120,
        l.tick_mark_size == 5,
        l.axis_stroke_width == 3,
        l.border_stroke_width == 3,
        l.title_font_size == 42,
        l.axis_label_font_size == 40,
        l.tick_label_font_size == 32,
{
    ChartLayout {
        margin: 50,
        x_label_area: 85,
        y_label_area: 120,
        tick_mark_size: 5,
        axis_stroke_width: 3,
        border_stroke_width: 3,
        title_font_size: 42,
        axis_label_font_size: 40,
        tick_label_font_size: 32,
    }
}

} // verus!
