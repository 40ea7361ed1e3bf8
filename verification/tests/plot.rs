use nanonis_plot::fixed::{Fixed, ONE, TEN};
use nanonis_plot::plan::{
    border_segments, exponent_annotation, plan_curve, DataPoint, Segment,
};
use nanonis_plot::style::{chart_layout, resolve_labels, PlotStyle, Rgb};
use nanonis_plot::text::{format_mantissa, int_string};
use nanonis_plot::fixed::{exponent_of, round_up_to_ten};

fn point(x: f64, y: f64) -> DataPoint {
    DataPoint::new(from_f64(x), from_f64(y))
}

fn from_f64(v: f64) -> Fixed {
    Fixed::from_units((v * 1e12).round() as i128)
}

fn default_labels() -> nanonis_plot::style::AxisLabels {
    resolve_labels(None, None)
}

#[test]
fn empty_points_use_default_ranges() {
    let points: Vec<DataPoint> = Vec::new();
    let plan = plan_curve(&points, default_labels(), &PlotStyle::default());
    assert_eq!(plan.x_min.units, 0);
    assert_eq!(plan.x_max.units, ONE);
    assert_eq!(plan.y_min.units, 100);
    assert_eq!(plan.y_max.units, 2 * ONE);
    assert_eq!(plan.exponent, 0);
    assert_eq!(plan.exponent_label.as_str(), "0");
}

#[test]
fn x_max_rounds_up_to_multiple_of_ten() {
    let points = vec![point(1.0, 1.0), point(3.0, 2.0)];
    let plan = plan_curve(&points, default_labels(), &PlotStyle::default());
    assert_eq!(plan.x_max.units, TEN);
    assert_eq!(plan.x_min.units, ONE);
}

#[test]
fn x_max_on_a_multiple_stays() {
    let points = vec![point(10.0, 1.0)];
    let plan = plan_curve(&points, default_labels(), &PlotStyle::default());
    assert_eq!(plan.x_max.units, TEN);
}

#[test]
fn x_max_just_above_a_multiple_rounds_to_the_next() {
    let r = round_up_to_ten(from_f64(10.5));
    assert_eq!(r.units, 2 * TEN);
}

#[test]
fn negative_x_max_rounds_toward_zero() {
    let r = round_up_to_ten(from_f64(-3.0));
    assert_eq!(r.units, 0);
    let r = round_up_to_ten(from_f64(-12.0));
    assert_eq!(r.units, -TEN);
}

#[test]
fn y_range_is_floored_and_padded() {
    let points = vec![point(1.0, 0.0), point(2.0, 4.0)];
    let plan = plan_curve(&points, default_labels(), &PlotStyle::default());
    // A non-positive minimum falls back to the 1e-10 floor (100 steps).
    assert_eq!(plan.y_min.units, 100);
    assert_eq!(plan.y_max.units, 8 * ONE);
}

#[test]
fn positive_y_minimum_is_halved() {
    let points = vec![point(1.0, 3.0), point(2.0, 4.0)];
    let plan = plan_curve(&points, default_labels(), &PlotStyle::default());
    assert_eq!(plan.y_min.units, 3 * ONE / 2);
}

#[test]
fn exponent_is_floor_of_log10() {
    assert_eq!(exponent_of(Fixed::from_int(100)), 2);
    assert_eq!(exponent_of(Fixed::from_int(999)), 2);
    assert_eq!(exponent_of(Fixed::from_int(1000)), 3);
    assert_eq!(exponent_of(Fixed::from_int(1)), 0);
    assert_eq!(exponent_of(Fixed::from_units(100)), -10);
    assert_eq!(exponent_of(Fixed::from_int(0)), 0);
    assert_eq!(exponent_of(Fixed::from_int(-5)), 0);
}

#[test]
fn mantissa_divides_by_ten_to_the_exponent() {
    assert_eq!(format_mantissa(from_f64(1.0), 0).as_str(), "1.00");
    assert_eq!(format_mantissa(from_f64(100.0), 2).as_str(), "1.00");
    assert_eq!(format_mantissa(from_f64(250.0), 2).as_str(), "2.50");
    assert_eq!(format_mantissa(from_f64(0.125), -1).as_str(), "1.25");
    assert_eq!(format_mantissa(from_f64(1e-10), -10).as_str(), "1.00");
    assert_eq!(format_mantissa(Fixed::from_units(3), -12).as_str(), "3.00");
}

#[test]
fn mantissa_rounds_to_two_decimals() {
    assert_eq!(format_mantissa(from_f64(0.005), 0).as_str(), "0.01");
    assert_eq!(format_mantissa(from_f64(1.234), 0).as_str(), "1.23");
    assert_eq!(format_mantissa(from_f64(1.236), 0).as_str(), "1.24");
    assert_eq!(format_mantissa(from_f64(-1.234), 0).as_str(), "-1.23");
    assert_eq!(format_mantissa(from_f64(0.0), 0).as_str(), "0.00");
}

#[test]
fn exponent_text_matches_decimal_writing() {
    assert_eq!(int_string(0).as_str(), "0");
    assert_eq!(int_string(2).as_str(), "2");
    assert_eq!(int_string(-10).as_str(), "-10");
    assert_eq!(int_string(123).as_str(), "123");
}

#[test]
fn mesh_flag_is_carried_and_labels_stay() {
    let mut style = PlotStyle::default();
    style.mesh = false;
    let points = vec![point(1.0, 1.0)];
    let plan = plan_curve(&points, default_labels(), &style);
    assert!(!plan.mesh);
    // The axis description texts are present whether or not gridlines are.
    assert_eq!(plan.x_desc.as_str(), "Frequency (Hz)");
    assert_eq!(plan.y_desc.as_str(), "Current PSD");
    // The annotation and the border do not depend on the mesh flag.
    assert_eq!(exponent_annotation(plan.exponent).len(), 2);
    assert_eq!(border_segments(0, 1, 0, 1).len(), 4);
}

#[test]
fn border_connects_the_four_corners() {
    let segments = border_segments(10, 90, 20, 80);
    assert_eq!(segments.len(), 4);
    assert_eq!(segments[0], Segment { x0: 10, y0: 20, x1: 90, y1: 20 });
    assert_eq!(segments[1], Segment { x0: 90, y0: 20, x1: 90, y1: 80 });
    assert_eq!(segments[2], Segment { x0: 90, y0: 80, x1: 10, y1: 80 });
    assert_eq!(segments[3], Segment { x0: 10, y0: 80, x1: 10, y1: 20 });
    // Each segment starts where the previous one ended, closing the loop.
    for i in 0..4 {
        let next = &segments[(i + 1) % 4];
        let cur = &segments[i];
        assert_eq!((cur.x1, cur.y1), (next.x0, next.y0));
    }
}

#[test]
fn annotation_draws_times_ten_and_the_exponent() {
    let texts = exponent_annotation(2);
    assert_eq!(texts[0].text.as_str(), "\u{d7}10");
    assert_eq!((texts[0].x, texts[0].y, texts[0].font_size), (165, 60, 26));
    assert_eq!(texts[1].text.as_str(), "2");
    assert_eq!((texts[1].x, texts[1].y, texts[1].font_size), (200, 52, 20));
    let negative = exponent_annotation(-10);
    assert_eq!(negative[1].text.as_str(), "-10");
}

#[test]
fn missing_headers_fall_back_to_defaults() {
    let labels = resolve_labels(None, Some(String::from("Noise")));
    assert_eq!(labels.x.as_str(), "Frequency (Hz)");
    assert_eq!(labels.y.as_str(), "Noise");
}

#[test]
fn default_style_matches_documentation() {
    let style = PlotStyle::default();
    assert_eq!((style.width, style.height), (1024, 768));
    assert!(style.log_y);
    assert!(style.mesh);
    assert_eq!(style.line_width, 4);
    assert_eq!(style.line_color, Rgb { r: 83, g: 134, b: 245 });
}

#[test]
fn layout_is_fixed() {
    let layout = chart_layout();
    assert_eq!(layout.margin, 50);
    assert_eq!(layout.x_label_area, 85);
    assert_eq!(layout.y_label_area, 120);
    assert_eq!(layout.tick_mark_size, 5);
    assert_eq!(layout.axis_stroke_width, 3);
    assert_eq!(layout.border_stroke_width, 3);
    assert_eq!(layout.title_font_size, 42);
    assert_eq!(layout.axis_label_font_size, 40);
    assert_eq!(layout.tick_label_font_size, 32);
}

#[test]
fn end_to_end_plan_for_three_decades() {
    let points = vec![point(1.0, 1.0), point(2.0, 10.0), point(3.0, 100.0)];
    let plan = plan_curve(&points, default_labels(), &PlotStyle::default());
    assert_eq!(plan.x_max.units, TEN);
    assert_eq!(plan.exponent, 2);
    assert_eq!(plan.exponent_label.as_str(), "2");
    assert_eq!(plan.y_max.units, 200 * ONE);
    assert_eq!(plan.y_min.units, ONE / 2);
    let texts = exponent_annotation(plan.exponent);
    assert_eq!(texts[1].text.as_str(), "2");
}
