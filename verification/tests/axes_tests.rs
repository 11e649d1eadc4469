use embedded_charts::axes::style::{LabelStyle, TextAlignment};
use embedded_charts::axes::ticks::LinearTickGenerator;
use embedded_graphics::pixelcolor::{Rgb565, RgbColor};
use embedded_charts::axes::{AxisConfig, AxisOrientation, AxisPosition};

#[test]
fn test_axis_config_creation() {
    let config = AxisConfig::new(0.0, 10.0, AxisOrientation::Horizontal, AxisPosition::Bottom);
    assert_eq!(config.min, 0.0);
    assert_eq!(config.max, 10.0);
    assert!(config.is_horizontal());
    assert!(!config.is_vertical());
}

#[test]
fn test_axis_config_range() {
    let config = AxisConfig::new(5, 15, AxisOrientation::Vertical, AxisPosition::Left);
    assert_eq!(config.range(), (5, 15));
}

#[test]
fn tick_generator_counts_are_clamped() {
    let g = LinearTickGenerator::new(50);
    assert_eq!(g.preferred_tick_count(), 20);
    let g = LinearTickGenerator::new(0).with_minor_ticks(0);
    assert_eq!(g.preferred_tick_count(), 2);
    assert!(g.includes_minor_ticks());
    assert_eq!(g.minor_tick_ratio(), 1);
    let mut g = g.without_minor_ticks();
    assert!(!g.includes_minor_ticks());
    g.set_preferred_tick_count(7);
    assert_eq!(g.preferred_tick_count(), 7);
    assert_eq!(LinearTickGenerator::new(5).with_minor_ticks(99).minor_tick_ratio(), 10);
}

use embedded_charts::axes::linear::{tick_mark, AxisSide, AxisSpace};
use embedded_charts::axes::ticks::{format_i32, CustomTickGenerator, Tick};
use embedded_charts::geometry::{Point, Rectangle, Size};

#[test]
fn test_tick_creation() {
    let major_tick = Tick::major(5.0, "5.0");
    assert!(major_tick.is_major);
    assert_eq!(major_tick.value, 5.0);
    assert!(major_tick.label.is_some());

    let minor_tick = Tick::minor(2.5);
    assert!(!minor_tick.is_major);
    assert_eq!(minor_tick.value, 2.5);
    assert!(minor_tick.label.is_none());
}

#[test]
fn custom_ticks_filtered_by_range() {
    let generator = CustomTickGenerator::new()
        .add_major_tick(0, "Start")
        .add_major_tick(5, "Middle")
        .add_major_tick(10, "End")
        .add_minor_tick(3)
        .add_major_tick(12, "Beyond");
    let ticks = generator.generate_ticks(0, 10, 10);
    assert_eq!(ticks.len(), 4);
    assert_eq!(ticks.iter().filter(|t| t.is_major).count(), 3);
    assert_eq!(generator.generate_ticks(0, 10, 2).len(), 2);
    assert_eq!(generator.preferred_tick_count(), 5);
    let long = Tick::major(1, "a label longer than sixteen");
    assert!(long.label.is_none());
}

#[test]
fn axis_lines_follow_side() {
    let vp = Rectangle::new(Point::new(10, 20), Size::new(100, 50));
    let bottom = AxisConfig::new(0, 1, AxisOrientation::Horizontal, AxisPosition::Bottom);
    assert_eq!(bottom.calculate_axis_line(vp), (Point::new(10, 69), Point::new(109, 69)));
    let odd = AxisConfig::new(0, 1, AxisOrientation::Horizontal, AxisPosition::Left);
    assert_eq!(odd.axis_side(), AxisSide::Bottom);
    let right = AxisConfig::new(0, 1, AxisOrientation::Vertical, AxisPosition::Right);
    assert_eq!(right.calculate_axis_line(vp), (Point::new(109, 20), Point::new(109, 69)));
    assert_eq!(right.calculate_tick_position(30, vp), Point::new(109, 30));
    assert_eq!(right.calculate_label_position(Point::new(109, 30), 4), Point::new(113, 30));
    let chart = Rectangle::new(Point::new(0, 0), Size::new(40, 30));
    assert_eq!(right.calculate_grid_line(30, vp, chart), (Point::new(0, 30), Point::new(39, 30)));
    let top = AxisConfig::new(0, 1, AxisOrientation::Horizontal, AxisPosition::Top);
    assert_eq!(top.calculate_label_position(Point::new(5, 20), 3), Point::new(5, 17));
    let space = AxisSpace {
        line_width: 1,
        major_ticks_visible: true,
        major_tick_length: 6,
        minor_ticks_visible: true,
        minor_tick_length: 3,
        labels_visible: true,
        label_offset: 2,
        font_size: 8,
    };
    assert_eq!(bottom.required_space(&space), 17);
}

#[test]
fn format_i32_gives_decimal_text() {
    assert_eq!(format_i32(0), "0");
    assert_eq!(format_i32(7), "7");
    assert_eq!(format_i32(1200), "1200");
    assert_eq!(format_i32(-45), "-45");
    assert_eq!(format_i32(i32::MAX), "2147483647");
    assert_eq!(format_i32(i32::MIN + 1), "-2147483647");
}

#[test]
fn tick_marks_point_away_from_the_chart() {
    let p = Point::new(10, 20);
    assert_eq!(tick_mark(p, 5, AxisOrientation::Horizontal), (p, Point::new(10, 25)));
    assert_eq!(tick_mark(p, 5, AxisOrientation::Vertical), (p, Point::new(5, 20)));
    assert_eq!(tick_mark(p, 0, AxisOrientation::Vertical), (p, p));
}

#[test]
fn test_label_style_builder() {
    let style = LabelStyle::new(Rgb565::BLUE)
        .with_font_size(14)
        .with_alignment(TextAlignment::Start)
        .with_rotation(90);

    assert_eq!(style.font_size, 14);
    assert_eq!(style.alignment, TextAlignment::Start);
    assert_eq!(style.rotation, 90);
}

#[test]
fn label_rotation_snaps_to_quarter_turns() {
    let base = LabelStyle::new(0u16);
    let snapped: Vec<u16> = [0u16, 45, 46, 135, 136, 200, 225, 226, 300, 315, 316, 359, 400]
        .iter()
        .map(|&d| base.with_rotation(d).rotation)
        .collect();
    assert_eq!(snapped, vec![0, 0, 90, 90, 180, 180, 180, 270, 270, 270, 0, 0, 0]);
    let hidden = base.with_color(7).hidden();
    assert_eq!(hidden.color, 7);
    assert!(!hidden.visible);
    assert!(hidden.visible().visible);
    assert_eq!(base.font_size, 12);
    assert_eq!(base.alignment, TextAlignment::Center);
    assert_eq!(TextAlignment::default(), TextAlignment::Center);
}

#[test]
fn test_custom_tick_generator() {
    // The generator's range filter works on integer values; the positions
    // 0, 5, 10 and 2.5 are given in tenths.
    let generator = CustomTickGenerator::new()
        .add_major_tick(0, "Start")
        .add_major_tick(50, "Middle")
        .add_major_tick(100, "End")
        .add_minor_tick(25);

    let ticks = generator.generate_ticks(0, 100, 10);
    assert_eq!(ticks.len(), 4);

    let major_count = ticks.iter().filter(|t| t.is_major).count();
    assert_eq!(major_count, 3);

    let float_generator = CustomTickGenerator::new()
        .add_major_tick(0.0f32, "Start")
        .add_major_tick(5.0, "Middle")
        .add_major_tick(10.0, "End")
        .add_minor_tick(2.5);
    assert_eq!(float_generator.preferred_tick_count(), 4);
}
