//! The render plan: everything about a curve plot that is decided before
//! any drawing happens.

use vstd::prelude::*;
use crate::fixed::{
    Fixed, exponent_of, exponent_spec, double, halve, floor_log10, round_up_ten, round_up_to_ten,
    lemma_round_up_ten, LOG_FLOOR, MAX_UNITS, ONE, TEN,
};
use crate::style::{AxisLabels, PlotStyle, Rgb};
use crate::text::{int_string, int_text};

verus! {

/// One sample of the measured curve.
#[derive(Clone, Copy, PartialEq, Eq, Structural, Debug)]
pub struct DataPoint {
    /// The x coordinate (for this instrument, a frequency).
    pub x: Fixed,
    /// The y coordinate (a spectral density).
    pub y: Fixed,
}

impl DataPoint {
    /// Both coordinates are within the planner's bounds.
    pub open spec fn wf(self) -> bool {
        self.x.wf() && self.y.wf()
    }

    /// Builds a sample from two coordinates.
    pub fn new(x: Fixed, y: Fixed) -> (p: DataPoint)
        ensures
            p.x == x,
            p.y == y,
    {
        DataPoint { x, y }
    }
}

/// The x coordinates of a point sequence, in steps.
pub open spec fn xs(s: Seq<DataPoint>) -> Seq<int> {
    s.map(|i: int, p: DataPoint| p.x.units as int)
}

/// The y coordinates of a point sequence, in steps.
pub open spec fn ys(s: Seq<DataPoint>) -> Seq<int> {
    s.map(|i: int, p: DataPoint| p.y.units as int)
}

/// The least element of a non-empty integer sequence.
pub open spec fn seq_min(s: Seq<int>) -> int
    recommends
        s.len() > 0,
    decreases s.len(),
{
    if s.len() <= 1 {
        s[0]
    } else {
        let r = seq_min(s.drop_last());
        if s.last() < r {
            s.last()
        } else {
            r
        }
    }
}

/// The greatest element of a non-empty integer sequence.
pub open spec fn seq_max(s: Seq<int>) -> int
    recommends
        s.len() > 0,
    decreases s.len(),
{
    if s.len() <= 1 {
        s[0]
    } else {
        let r = seq_max(s.drop_last());
        if s.last() > r {
            s.last()
        } else {
            r
        }
    }
}

/// The least x coordinate of a non-empty point sequence.
pub open spec fn min_x_of(s: Seq<DataPoint>) -> int {
    seq_min(xs(s))
}

/// The greatest x coordinate of a non-empty point sequence.
pub open spec fn max_x_of(s: Seq<DataPoint>) -> int {
    seq_max(xs(s))
}

/// The least y coordinate of a non-empty point sequence.
pub open spec fn min_y_of(s: Seq<DataPoint>) -> int {
    seq_min(ys(s))
}

/// The greatest y coordinate of a non-empty point sequence.
pub open spec fn max_y_of(s: Seq<DataPoint>) -> int {
    seq_max(ys(s))
}

/// `seq_min` is a lower bound and is attained.
pub proof fn lemma_seq_min_bounds(s: Seq<int>)
    requires
        s.len() > 0,
    ensures
        forall|i: int| 0 <= i < s.len() ==> seq_min(s) <= #[trigger] s[i],
        exists|i: int| 0 <= i < s.len() && s[i] == seq_min(s),
    decreases s.len(),
{
    if s.len() > 1 {
        lemma_seq_min_bounds(s.drop_last());
        assert(forall|i: int| 0 <= i < s.len() - 1 ==> #[trigger] s[i] == s.drop_last()[i]);
        let j = choose|j: int| 0 <= j < s.drop_last().len() && s.drop_last()[j] == seq_min(
            s.drop_last(),
        );
        if s.last() < seq_min(s.drop_last()) {
            assert(s[s.len() - 1] == seq_min(s));
        } else {
            assert(s[j] == seq_min(s));
        }
    } else {
        assert(s[0] == seq_min(s));
    }
}

/// `seq_max` is an upper bound and is attained.
pub proof fn lemma_seq_max_bounds(s: Seq<int>)
    requires
        s.len() > 0,
    ensures
        forall|i: int| 0 <= i < s.len() ==> #[trigger] s[i] <= seq_max(s),
        exists|i: int| 0 <= i < s.len() && s[i] == seq_max(s),
    decreases s.len(),
{
    if s.len() > 1 {
        lemma_seq_max_bounds(s.drop_last());
        assert(forall|i: int| 0 <= i < s.len() - 1 ==> #[trigger] s[i] == s.drop_last()[i]);
        let j = choose|j: int| 0 <= j < s.drop_last().len() && s.drop_last()[j] == seq_max(
            s.drop_last(),
        );
        if s.last() > seq_max(s.drop_last()) {
            assert(s[s.len() - 1] == seq_max(s));
        } else {
            assert(s[j] == seq_max(s));
        }
    } else {
        assert(s[0] == seq_max(s));
    }
}

/// For a non-empty point sequence, the rounded x upper bound is a
/// multiple of ten whole units and not below any x coordinate of the
/// data.
pub proof fn lemma_x_max_rounded(points: Seq<DataPoint>)
    requires
        points.len() > 0,
    ensures
        round_up_ten(max_x_of(points)) % (TEN as int) == 0,
        forall|i: int|
            0 <= i < points.len() ==> (#[trigger] points[i]).x.units <= round_up_ten(
                max_x_of(points),
            ),
{
    lemma_seq_max_bounds(xs(points));
    lemma_round_up_ten(max_x_of(points));
    assert forall|i: int|
        0 <= i < points.len() implies (#[trigger] points[i]).x.units <= round_up_ten(
        max_x_of(points),
    ) by {
        assert(xs(points)[i] == points[i].x.units as int);
    }
}

/// Everything the renderer needs to draw one curve plot.
pub struct RenderPlan {
    /// Canvas width in pixels.
    pub width: u32,
    /// Canvas height in pixels.
    pub height: u32,
    /// Lower bound of the linear x axis.
    pub x_min: Fixed,
    /// Upper bound of the linear x axis, rounded up to a multiple of ten.
    pub x_max: Fixed,
    /// Lower bound of the logarithmic y axis: half the least y, or the
    /// positive floor when the least y is not positive.
    pub y_min: Fixed,
    /// Upper bound of the logarithmic y axis: twice the greatest y.
    pub y_max: Fixed,
    /// The shared decimal exponent of the y tick labels.
    pub exponent: i32,
    /// The exponent written in decimal, as the annotation shows it.
    pub exponent_label: String,
    /// Whether gridlines and tick labels are drawn.
    pub mesh: bool,
    /// Text under the x axis.
    pub x_desc: String,
    /// Text beside the y axis.
    pub y_desc: String,
    /// Stroke width of the data curve.
    pub line_width: u32,
    /// Colour of the data curve.
    pub line_color: Rgb,
}

/// Computes the plan for one curve plot: scans the points once for the
/// axis extremes, rounds the x upper bound up to a multiple of ten,
/// floors and pads the logarithmic y range, and fixes the shared decimal
/// exponent of the y tick labels.  An empty sequence falls back to an x
/// range of zero to one and the logarithmic floor.
pub fn plan_curve(points: &Vec<DataPoint>, labels: AxisLabels, style: &PlotStyle) -> (p: RenderPlan)
    requires
        forall|i: int| 0 <= i < points@.len() ==> (#[trigger] points@[i]).wf(),
    ensures
        p.width == style.width,
        p.height == style.height,
        p.mesh == style.mesh,
        p.line_width == style.line_width,
        p.line_color == style.line_color,
        p.x_desc@ == labels.x@,
        p.y_desc@ == labels.y@,
        points@.len() == 0 ==> p.x_min.units == 0 && p.x_max.units == ONE && p.y_min.units
            == LOG_FLOOR && p.y_max.units == 2 * (ONE as int) && p.exponent == 0,
        points@.len() > 0 ==> {
            &&& p.x_min.units == min_x_of(points@)
            &&& p.x_max.units == round_up_ten(max_x_of(points@))
            &&& p.y_min.units == (if min_y_of(points@) <= 0 {
                LOG_FLOOR as int
            } else {
                min_y_of(points@) / 2
            })
            &&& p.y_max.units == 2 * max_y_of(points@)
            &&& p.exponent == exponent_spec(max_y_of(points@))
        },
        p.exponent_label@ == int_text(p.exponent as int),
        -12 <= p.exponent <= 21,
{
    let n = points.len();
    let x_min_f: Fixed;
    let x_max_f: Fixed;
    let y_rmin: Fixed;
    let y_rmax: Fixed;
    if n == 0 {
        x_min_f = Fixed { units: 0 };
        x_max_f = Fixed { units: ONE };
        y_rmin = Fixed { units: 0 };
        y_rmax = Fixed { units: ONE };
    } else {
        let first = points[0];
        let mut xmin: i128 = first.x.units;
        let mut xmax: i128 = first.x.units;
        let mut ymin: i128 = first.y.units;
        let mut ymax: i128 = first.y.units;
        let mut i: usize = 1;
        proof {
            assert(xs(points@).take(1)[0] == points@[0].x.units as int);
            assert(ys(points@).take(1)[0] == points@[0].y.units as int);
        }
        while i < n
            invariant
                1 <= i <= n,
                n == points@.len(),
                forall|j: int| 0 <= j < points@.len() ==> (#[trigger] points@[j]).wf(),
                xmin == seq_min(xs(points@).take(i as int)),
                xmax == seq_max(xs(points@).take(i as int)),
                ymin == seq_min(ys(points@).take(i as int)),
                ymax == seq_max(ys(points@).take(i as int)),
                -MAX_UNITS <= xmin <= MAX_UNITS,
                -MAX_UNITS <= xmax <= MAX_UNITS,
                -MAX_UNITS <= ymin <= MAX_UNITS,
                -MAX_UNITS <= ymax <= MAX_UNITS,
            decreases n - i,
        {
            proof {
                let sx = xs(points@);
                let sy = ys(points@);
                assert(sx.take(i as int + 1).drop_last() =~= sx.take(i as int));
                assert(sy.take(i as int + 1).drop_last() =~= sy.take(i as int));
                assert(sx.take(i as int + 1).last() == points@[i as int].x.units as int);
                assert(sy.take(i as int + 1).last() == points@[i as int].y.units as int);
            }
            let q = points[i];
            if q.x.units < xmin {
                xmin = q.x.units;
            }
            if q.x.units > xmax {
                xmax = q.x.units;
            }
            if q.y.units < ymin {
                ymin = q.y.units;
            }
            if q.y.units > ymax {
                ymax = q.y.units;
            }
            i = i + 1;
        }
        proof {
            assert(xs(points@).take(n as int) =~= xs(points@));
            assert(ys(points@).take(n as int) =~= ys(points@));
        }
        x_min_f = Fixed { units: xmin };
        x_max_f = round_up_to_ten(Fixed { units: xmax });
        y_rmin = Fixed { units: ymin };
        y_rmax = Fixed { units: ymax };
    }
    let y_min_f = if y_rmin.units <= 0 {
        Fixed { units: LOG_FLOOR }
    } else {
        halve(y_rmin)
    };
    let y_max_f = double(y_rmax);
    let exponent = exponent_of(y_rmax);
    proof {
        if points@.len() == 0 {
            assert(exponent_spec(ONE as int) == 0) by {
                reveal_with_fuel(floor_log10, 15);
            }
        }
    }
    let exponent_label = int_string(exponent);
    RenderPlan {
        width: style.width,
        height: style.height,
        x_min: x_min_f,
        x_max: x_max_f,
        y_min: y_min_f,
        y_max: y_max_f,
        exponent,
        exponent_label,
        mesh: style.mesh,
        x_desc: labels.x,
        y_desc: labels.y,
        line_width: style.line_width,
        line_color: style.line_color,
    }
}

/// One straight stroke between two pixel positions.
#[derive(Clone, Copy, PartialEq, Eq, Structural, Debug)]
pub struct Segment {
    /// Start x.
    pub x0: i32,
    /// Start y.
    pub y0: i32,
    /// End x.
    pub x1: i32,
    /// End y.
    pub y1: i32,
}

/// The four border strokes of the plot area: given the pixel bounds of
/// the plotted data area, they connect its four corners into a rectangle.
/// The border does not depend on whether gridlines are drawn.
pub fn border_segments(x_start: i32, x_end: i32, y_start: i32, y_end: i32) -> (v: Vec<Segment>)
    ensures
        v@.len() == 4,
        v@[0] == (Segment { x0: x_start, y0: y_start, x1: x_end, y1: y_start }),
        v@[1] == (Segment { x0: x_end, y0: y_start, x1: x_end, y1: y_end }),
        v@[2] == (Segment { x0: x_end, y0: y_end, x1: x_start, y1: y_end }),
        v@[3] == (Segment { x0: x_start, y0: y_end, x1: x_start, y1: y_start }),
{
    let mut v: Vec<Segment> = Vec::new();
    v.push(Segment { x0: x_start, y0: y_start, x1: x_end, y1: y_start });
    v.push(Segment { x0: x_end, y0: y_start, x1: x_end, y1: y_end });
    v.push(Segment { x0: x_end, y0: y_end, x1: x_start, y1: y_end });
    v.push(Segment { x0: x_start, y0: y_end, x1: x_start, y1: y_start });
    v
}

/// A piece of text drawn at a fixed pixel position.
pub struct TextElement {
    /// The text itself.
    pub text: String,
    /// Horizontal pixel position.
    pub x: i32,
    /// Vertical pixel position.
    pub y: i32,
    /// Font size in points.
    pub font_size: u32,
}

/// Horizontal pixel position of the scale annotation.
pub const ANNOTATION_X: i32 = 165;

/// Vertical pixel position of the scale annotation.
pub const ANNOTATION_Y: i32 = 60;

/// Horizontal offset of the exponent relative to the annotation base.
pub const EXPONENT_OFFSET_X: i32 = 35;

/// Vertical offset of the exponent relative to the annotation base.
pub const EXPONENT_OFFSET_Y: i32 = -8;

/// The manually drawn scale annotation near the top left of the plot
/// area: the text `×10` followed by the shared exponent, raised and in a
/// smaller font, at a fixed offset.  It is drawn whether or not gridlines
/// are enabled.
pub fn exponent_annotation(exponent: i32) -> (v: Vec<TextElement>)
    ensures
        v@.len() == 2,
        v@[0].text@ == "×10"@,
        v@[0].x == ANNOTATION_X,
        v@[0].y == ANNOTATION_Y,
        v@[0].font_size == 26,
        v@[1].text@ == int_text(exponent as int),
        v@[1].x == ANNOTATION_X + EXPONENT_OFFSET_X,
        v@[1].y == ANNOTATION_Y + EXPONENT_OFFSET_Y,
        v@[1].font_size == 20,
{
    let mut v: Vec<TextElement> = Vec::new();
    v.push(
        TextElement {
            text: "×10".to_owned(),
            x: ANNOTATION_X,
            y: ANNOTATION_Y,
            font_size: 26,
        },
    );
    v.push(
        TextElement {
            text: int_string(exponent),
            x: ANNOTATION_X + EXPONENT_OFFSET_X,
            y: ANNOTATION_Y + EXPONENT_OFFSET_Y,
            font_size: 20,
        },
    );
    v
}

} // verus!
