use embedded_charts::chart::bar::{auto_bar_width, bar_rect, bar_rects, BarOrientation};
use embedded_charts::chart::scatter::{marker_primitives, MarkerPrimitive, PointShape};
use embedded_charts::chart::stacked::StackedData;
use embedded_charts::geometry::{Point, Rectangle, Size};
use embedded_charts::data::point::{DataPoint, IntPoint};
use embedded_charts::data::ring_buffer::RingBuffer;
use embedded_charts::data::series::{DataSeries, StaticDataSeries};
use embedded_charts::error::{ChartError, DataErrorKind};
use embedded_graphics::pixelcolor::{IntoStorage, Rgb565, RgbColor};

fn layer(values: &[(i32, i32)]) -> StaticDataSeries<IntPoint, 10> {
    let mut series = StaticDataSeries::new();
    for &(x, y) in values {
        series.push(IntPoint::new(x, y)).unwrap();
    }
    series
}

#[test]
fn test_stacked_data_creation() {
    let mut stacked_data = StackedData::<IntPoint, 10>::new();
    assert_eq!(stacked_data.layer_count(), 0);

    let layer1 = layer(&[(0, 10), (1, 15)]);

    stacked_data
        .add_layer(layer1, "Layer 1", Rgb565::BLUE.into_storage())
        .unwrap();
    assert_eq!(stacked_data.layer_count(), 1);
    assert_eq!(stacked_data.label(0), Some("Layer 1"));
    assert_eq!(stacked_data.color(0), Some(Rgb565::BLUE.into_storage()));
}

#[test]
fn test_cumulative_calculation() {
    let mut stacked_data = StackedData::<IntPoint, 10>::new();

    let layer1 = layer(&[(0, 10), (1, 15)]);
    let layer2 = layer(&[(0, 5), (1, 8)]);

    stacked_data
        .add_layer(layer1, "Layer 1", Rgb565::BLUE.into_storage())
        .unwrap();
    stacked_data
        .add_layer(layer2, "Layer 2", Rgb565::RED.into_storage())
        .unwrap();

    let cumulative = stacked_data.calculate_cumulative().unwrap();
    assert_eq!(cumulative.len(), 2);

    assert_eq!(cumulative[0][0], 10);
    assert_eq!(cumulative[0][1], 15);

    assert_eq!(cumulative[1][0], 15);
    assert_eq!(cumulative[1][1], 23);
}

#[test]
fn stacked_empty_gives_no_tops() {
    let stacked_data = StackedData::<IntPoint, 10>::default();
    assert_eq!(stacked_data.calculate_cumulative().unwrap().len(), 0);
    assert!(stacked_data.layer(0).is_none());
    assert!(stacked_data.label(0).is_none());
    assert!(stacked_data.color(0).is_none());
}

#[test]
fn stacked_unequal_layers_are_refused() {
    let mut stacked_data = StackedData::<IntPoint, 10>::new();
    stacked_data.add_layer(layer(&[(0, 1), (1, 2)]), "a", 1).unwrap();
    stacked_data.add_layer(layer(&[(0, 1)]), "b", 2).unwrap();
    match stacked_data.calculate_cumulative() {
        Err(ChartError::DataError(e)) => assert_eq!(e.error_kind(), DataErrorKind::BufferFull),
        other => panic!("unexpected {:?}", other),
    }
}

#[test]
fn stacked_three_layers_top_is_total() {
    let mut stacked_data = StackedData::<IntPoint, 10>::new();
    stacked_data.add_layer(layer(&[(0, 1), (1, -2)]), "a", 1).unwrap();
    stacked_data.add_layer(layer(&[(0, 3), (1, 4)]), "b", 2).unwrap();
    stacked_data.add_layer(layer(&[(0, 5), (1, 7)]), "c", 3).unwrap();
    let tops = stacked_data.calculate_cumulative().unwrap();
    assert_eq!(tops, vec![vec![1, -2], vec![4, 2], vec![9, 9]]);
}

#[test]
fn stacked_ninth_layer_is_refused() {
    let mut stacked_data = StackedData::<IntPoint, 10>::new();
    for i in 0..8 {
        stacked_data.add_layer(layer(&[(0, i)]), "x", 0).unwrap();
    }
    assert_eq!(stacked_data.add_layer(layer(&[(0, 9)]), "x", 0), Err(ChartError::MemoryFull));
    assert_eq!(stacked_data.layer_count(), 8);
}

#[test]
fn stacked_long_label_keeps_layer_only() {
    let mut stacked_data = StackedData::<IntPoint, 10>::new();
    let long = "a label that is longer than thirty-two bytes";
    assert_eq!(stacked_data.add_layer(layer(&[(0, 1)]), long, 7), Err(ChartError::MemoryFull));
    assert_eq!(stacked_data.layer_count(), 1);
    assert!(stacked_data.label(0).is_none());
    assert!(stacked_data.color(0).is_none());
    assert_eq!(stacked_data.layer(0).unwrap().len(), 1);
}

#[test]
fn ring_buffer_downsample_takes_every_factor_th() {
    let mut buffer: RingBuffer<IntPoint, 8> = RingBuffer::new();
    for i in 0..7 {
        buffer.push(IntPoint::new(i, i * 10)).unwrap();
    }
    let picked: Vec<i32> = buffer.downsample(3).iter().map(|p| p.x()).collect();
    assert_eq!(picked, vec![0, 3, 6]);
    let all: Vec<i32> = buffer.downsample(1).iter().map(|p| p.y()).collect();
    assert_eq!(all, vec![0, 10, 20, 30, 40, 50, 60]);
}

#[test]
fn auto_bar_width_shares_the_space() {
    assert_eq!(auto_bar_width(100, 5, 4), 21);
    assert_eq!(auto_bar_width(100, 0, 1), 100);
    assert_eq!(auto_bar_width(10, 5, 4), 5);
    assert_eq!(auto_bar_width(30, 2, 3), 8);
}

#[test]
fn vertical_bars_stand_on_the_bottom() {
    let area = Rectangle::new(Point::new(10, 20), Size::new(100, 50));
    let bars = bar_rects(BarOrientation::Vertical, area, 10, 5, &[0, 20, 50]);
    assert_eq!(
        bars,
        vec![
            Rectangle::new(Point::new(10, 69), Size::new(10, 1)),
            Rectangle::new(Point::new(25, 50), Size::new(10, 20)),
            Rectangle::new(Point::new(40, 20), Size::new(10, 50)),
        ]
    );
}

#[test]
fn horizontal_bars_start_at_the_left() {
    let area = Rectangle::new(Point::new(10, 20), Size::new(100, 50));
    let bars = bar_rects(BarOrientation::Horizontal, area, 8, 2, &[30, 0]);
    assert_eq!(
        bars,
        vec![
            Rectangle::new(Point::new(10, 20), Size::new(30, 8)),
            Rectangle::new(Point::new(10, 30), Size::new(1, 8)),
        ]
    );
    assert!(bar_rects(BarOrientation::Horizontal, area, 8, 2, &[]).is_empty());
}

#[test]
fn single_bar_rect() {
    let area = Rectangle::new(Point::new(0, 0), Size::new(40, 40));
    assert_eq!(
        bar_rect(BarOrientation::Vertical, area, 12, 4, 10),
        Rectangle::new(Point::new(12, 30), Size::new(4, 10))
    );
}

#[test]
fn markers_outside_the_target_are_skipped() {
    let target = Rectangle::new(Point::new(0, 0), Size::new(100, 50));
    // Half the size (5) of margin is allowed on each side.
    assert!(marker_primitives(Point::new(-6, 10), 10, PointShape::Circle, None, target).is_empty());
    assert!(!marker_primitives(Point::new(-5, 10), 10, PointShape::Circle, None, target).is_empty());
    assert!(marker_primitives(Point::new(105, 10), 10, PointShape::Square, None, target).is_empty());
    assert!(!marker_primitives(Point::new(104, 10), 10, PointShape::Square, None, target).is_empty());
    assert!(marker_primitives(Point::new(10, -6), 10, PointShape::X, None, target).is_empty());
    assert!(marker_primitives(Point::new(10, 55), 10, PointShape::Cross, None, target).is_empty());
}

#[test]
fn marker_shapes_and_borders() {
    let target = Rectangle::new(Point::new(0, 0), Size::new(100, 100));
    let c = Point::new(20, 30);
    assert_eq!(
        marker_primitives(c, 8, PointShape::Circle, None, target),
        vec![MarkerPrimitive::FilledCircle { top_left: Point::new(16, 26), diameter: 8 }]
    );
    assert_eq!(
        marker_primitives(c, 8, PointShape::Star, Some(1), target),
        vec![
            MarkerPrimitive::FilledCircle { top_left: Point::new(16, 26), diameter: 8 },
            MarkerPrimitive::CircleOutline { top_left: Point::new(16, 26), diameter: 8, width: 1 },
        ]
    );
    assert_eq!(
        marker_primitives(c, 8, PointShape::Square, Some(2), target),
        vec![
            MarkerPrimitive::FilledSquare { top_left: Point::new(16, 26), size: 8 },
            MarkerPrimitive::SquareOutline { top_left: Point::new(16, 26), size: 8, width: 2 },
        ]
    );
    assert_eq!(
        marker_primitives(c, 9, PointShape::Triangle, None, target),
        vec![MarkerPrimitive::FilledTriangle {
            a: Point::new(20, 26),
            b: Point::new(16, 34),
            c: Point::new(24, 34),
        }]
    );
    assert_eq!(
        marker_primitives(c, 6, PointShape::Cross, None, target),
        vec![
            MarkerPrimitive::Line { start: Point::new(20, 27), end: Point::new(20, 33), width: 2 },
            MarkerPrimitive::Line { start: Point::new(17, 30), end: Point::new(23, 30), width: 2 },
        ]
    );
    assert_eq!(
        marker_primitives(c, 6, PointShape::X, Some(1), target),
        vec![
            MarkerPrimitive::Line { start: Point::new(17, 27), end: Point::new(23, 33), width: 2 },
            MarkerPrimitive::Line { start: Point::new(17, 33), end: Point::new(23, 27), width: 2 },
            MarkerPrimitive::CircleOutline { top_left: Point::new(17, 27), diameter: 6, width: 1 },
        ]
    );
    assert_eq!(
        marker_primitives(c, 6, PointShape::Diamond, None, target),
        vec![MarkerPrimitive::FilledDiamond { center: c, size: 6 }]
    );
}
