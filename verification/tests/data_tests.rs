use embedded_charts::data::aggregation::{aggregation_groups, AggregationConfig, AggregationStrategy};
use embedded_charts::data::bounds::{calculate_bounds, calculate_multi_series_bounds, DataBounds};
use embedded_charts::data::point::{validate_point, DataPoint, IntPoint};
use embedded_charts::data::ring_buffer::{OverflowMode, RingBuffer, RingBufferConfig, RingBufferEvent};
use embedded_charts::data::series::{DataSeries, MultiSeries, SlidingWindowSeries, StaticDataSeries};
use embedded_charts::data::streaming::{ChartInstanceConfig, ChartType, StreamingChartManager};
use embedded_charts::error::{ChartError, DataError, DataErrorKind};

#[derive(Debug, Clone, Copy, PartialEq)]
struct Point2D {
    x: f32,
    y: f32,
}

impl DataPoint for Point2D {
    type X = f32;
    type Y = f32;
    fn x_of(&self) -> f32 {
        self.x
    }
    fn y_of(&self) -> f32 {
        self.y
    }
    fn x(&self) -> f32 {
        self.x
    }
    fn y(&self) -> f32 {
        self.y
    }
    fn new(x: f32, y: f32) -> Self {
        Point2D { x, y }
    }
}

#[test]
fn test_int_point_creation() {
    let point = IntPoint::new(10, 20);
    assert_eq!(point.x(), 10);
    assert_eq!(point.y(), 20);
}

#[test]
fn int_point_tuple_conversions() {
    let p: IntPoint = (3, -4).into();
    assert_eq!(p, IntPoint::new(3, -4));
    let t: (i32, i32) = p.into();
    assert_eq!(t, (3, -4));
    assert!(validate_point(&p).is_ok());
}

#[test]
fn test_aggregation_config_default() {
    let config = AggregationConfig::default();
    assert_eq!(config.strategy, AggregationStrategy::Mean);
    assert_eq!(config.target_points, 100);
    assert!(config.preserve_endpoints);
    assert_eq!(config.min_group_size, 1);
}

#[test]
fn test_static_series_creation() {
    let series: StaticDataSeries<Point2D, 10> = StaticDataSeries::new();
    assert_eq!(series.len(), 0);
    assert!(series.is_empty());
    assert_eq!(series.capacity(), 10);
}

#[test]
fn test_static_series_push() {
    let mut series: StaticDataSeries<Point2D, 10> = StaticDataSeries::new();
    let point = Point2D::new(1.0, 2.0);

    series.push(point).unwrap();
    assert_eq!(series.len(), 1);
    assert_eq!(series.get(0), Some(point));
}

#[test]
fn test_static_series_from_tuples() {
    let tuples = [(1.0, 2.0), (3.0, 4.0), (5.0, 6.0)];
    let series: StaticDataSeries<Point2D, 10> = StaticDataSeries::from_tuples(&tuples).unwrap();

    assert_eq!(series.len(), 3);
    assert_eq!(series.get(0), Some(Point2D::new(1.0, 2.0)));
    assert_eq!(series.get(1), Some(Point2D::new(3.0, 4.0)));
    assert_eq!(series.get(2), Some(Point2D::new(5.0, 6.0)));
}

#[test]
fn series_test_multi_series() {
    let mut multi: MultiSeries<Point2D, 5, 10> = MultiSeries::new();
    let mut series1 = StaticDataSeries::with_label("Series 1");
    series1.push(Point2D::new(1.0, 2.0)).unwrap();

    let index = multi.add_series(series1).unwrap();
    assert_eq!(index, 0);
    assert_eq!(multi.series_count(), 1);

    let retrieved_series = multi.get_series(0).unwrap();
    assert_eq!(retrieved_series.label(), Some("Series 1"));
    assert_eq!(retrieved_series.len(), 1);
}

#[test]
fn test_sliding_window_series() {
    let mut series: SlidingWindowSeries<Point2D, 3> = SlidingWindowSeries::new();

    series.push(Point2D::new(1.0, 1.0));
    series.push(Point2D::new(2.0, 2.0));
    series.push(Point2D::new(3.0, 3.0));

    assert_eq!(series.current_len(), 3);
    assert!(series.is_full());

    series.push(Point2D::new(4.0, 4.0));
    assert_eq!(series.current_len(), 3);

    let points: Vec<Point2D> = series.iter();
    assert_eq!(points.len(), 3);
    assert_eq!(points[0], Point2D::new(2.0, 2.0));
    assert_eq!(points[1], Point2D::new(3.0, 3.0));
    assert_eq!(points[2], Point2D::new(4.0, 4.0));
}

#[test]
fn sliding_window_get_and_clear() {
    let mut series: SlidingWindowSeries<IntPoint, 2> = SlidingWindowSeries::with_label("w");
    series.push(IntPoint::new(1, 1));
    series.push(IntPoint::new(2, 2));
    series.push(IntPoint::new(3, 3));
    assert_eq!(series.get(0), Some(IntPoint::new(2, 2)));
    assert_eq!(series.get(1), Some(IntPoint::new(3, 3)));
    assert_eq!(series.get(2), None);
    assert_eq!(series.label(), Some("w"));
    series.clear();
    assert_eq!(series.current_len(), 0);
    assert!(!series.is_full());
    assert_eq!(series.capacity(), 2);
}

#[test]
fn static_series_full_and_labels() {
    let mut s: StaticDataSeries<IntPoint, 2> = StaticDataSeries::new();
    s.push(IntPoint::new(1, 1)).unwrap();
    s.push(IntPoint::new(2, 2)).unwrap();
    assert!(s.is_full());
    assert_eq!(s.remaining_capacity(), 0);
    match s.push(IntPoint::new(3, 3)) {
        Err(DataError::BufferFull { context: Some(ctx) }) => {
            assert_eq!(ctx.numeric_context, Some(2));
            assert_eq!(ctx.operation, "push data point");
        }
        other => panic!("unexpected {:?}", other),
    }
    s.set_label("a label that is much longer than thirty-two bytes");
    assert_eq!(s.label(), None);
    s.set_label("ok");
    s.set_label("a label that is much longer than thirty-two bytes");
    assert_eq!(s.label(), Some("ok"));
    s.clear();
    assert!(s.is_empty());
    assert_eq!(s.label(), Some("ok"));
}

#[test]
fn static_series_extend_stops_when_full() {
    let mut s: StaticDataSeries<IntPoint, 3> = StaticDataSeries::new();
    let pts = [IntPoint::new(1, 0), IntPoint::new(2, 0), IntPoint::new(3, 0), IntPoint::new(4, 0)];
    assert!(s.extend(&pts).is_err());
    assert_eq!(s.as_slice(), &pts[..3]);
    let too_many: Result<StaticDataSeries<IntPoint, 1>, DataError> =
        StaticDataSeries::from_tuples(&[(1, 1), (2, 2)]);
    assert_eq!(too_many.unwrap_err().error_kind(), DataErrorKind::BufferFull);
}

#[test]
fn sorting_by_each_axis() {
    let mut s: StaticDataSeries<IntPoint, 64> = StaticDataSeries::new();
    for i in 0..40 {
        s.push(IntPoint::new((i * 17) % 23 - 11, (i * 7) % 13)).unwrap();
    }
    let before = s.as_slice().to_vec();
    s.sort_by_x();
    for w in s.as_slice().windows(2) {
        assert!(w[0].x <= w[1].x);
    }
    let mut a = before.clone();
    let mut b = s.as_slice().to_vec();
    a.sort_by_key(|p| (p.x, p.y));
    b.sort_by_key(|p| (p.x, p.y));
    assert_eq!(a, b);
    s.sort_by_y();
    for w in s.as_slice().windows(2) {
        assert!(w[0].y <= w[1].y);
    }
    let mut small: StaticDataSeries<IntPoint, 8> = StaticDataSeries::new();
    for p in [(5, 1), (3, 2), (4, 3), (3, 0)] {
        small.push(IntPoint::new(p.0, p.1)).unwrap();
    }
    small.sort_by_x();
    let xs: Vec<i32> = small.as_slice().iter().map(|p| p.x).collect();
    assert_eq!(xs, vec![3, 3, 4, 5]);
}

#[test]
fn sorting_keeps_the_order_of_ties() {
    let mut small: StaticDataSeries<IntPoint, 8> = StaticDataSeries::new();
    for p in [(2, 1), (1, 5), (2, 0), (1, 3)] {
        small.push(IntPoint::new(p.0, p.1)).unwrap();
    }
    small.sort_by_x();
    let pts: Vec<(i32, i32)> = small.as_slice().iter().map(|p| (p.x, p.y)).collect();
    assert_eq!(pts, vec![(1, 5), (1, 3), (2, 1), (2, 0)]);

    let mut large: StaticDataSeries<IntPoint, 64> = StaticDataSeries::new();
    for i in 0..40 {
        large.push(IntPoint::new(i % 3, i)).unwrap();
    }
    large.sort_by_x();
    let mut expected: Vec<(i32, i32)> = (0..40).map(|i| (i % 3, i)).collect();
    expected.sort_by_key(|p| p.0);
    let got: Vec<(i32, i32)> = large.as_slice().iter().map(|p| (p.x, p.y)).collect();
    assert_eq!(got, expected);
}

#[test]
fn series_bounds_and_ref_iter() {
    let s: StaticDataSeries<IntPoint, 8> =
        StaticDataSeries::from_tuples(&[(1, 2), (5, 8), (3, -4)]).unwrap();
    let b = s.bounds().unwrap();
    assert_eq!(b, DataBounds { min_x: 1, max_x: 5, min_y: -4, max_y: 8 });
    let mut it = s.iter_ref();
    assert_eq!(it.remaining_len(), 3);
    assert_eq!(it.next(), Some(&IntPoint::new(1, 2)));
    it.next();
    it.next();
    assert_eq!(it.next(), None);
    let empty: StaticDataSeries<IntPoint, 8> = StaticDataSeries::new();
    assert!(empty.bounds().is_err());
}

#[test]
fn multi_series_capacity_and_bounds() {
    let mut m: MultiSeries<IntPoint, 2, 4> = MultiSeries::new();
    assert!(m.combined_bounds().is_err());
    m.add_series(StaticDataSeries::from_tuples(&[(0, 10), (5, 0)]).unwrap()).unwrap();
    m.add_series(StaticDataSeries::from_tuples(&[(-3, 4)]).unwrap()).unwrap();
    assert!(m.add_series(StaticDataSeries::new()).is_err());
    assert_eq!(m.combined_bounds().unwrap(), DataBounds { min_x: -3, max_x: 5, min_y: 0, max_y: 10 });
    assert_eq!(m.iter_series().len(), 2);
    assert!(m.get_series(2).is_none());
    m.clear();
    assert!(m.is_empty());
}

#[test]
fn test_bounds_creation() {
    let bounds = DataBounds::new(0, 10, 0, 20).unwrap();
    assert_eq!(bounds.min_x, 0);
    assert_eq!(bounds.max_x, 10);
    assert_eq!(bounds.min_y, 0);
    assert_eq!(bounds.max_y, 20);
}

#[test]
fn test_invalid_bounds() {
    let result = DataBounds::new(10, 0, 0, 20);
    assert!(result.is_err());
}

#[test]
fn test_bounds_contains() {
    let bounds = DataBounds::new(0, 10, 0, 20).unwrap();
    let point = IntPoint::new(5, 10);
    assert!(bounds.contains(&point));

    let outside_point = IntPoint::new(15, 10);
    assert!(!bounds.contains(&outside_point));
}

#[test]
fn test_bounds_expansion() {
    let mut bounds = DataBounds::new(0, 10, 0, 20).unwrap();
    let point = IntPoint::new(15, 25);
    bounds.expand_to_include(&point);

    assert_eq!(bounds.max_x, 15);
    assert_eq!(bounds.max_y, 25);
}

#[test]
fn test_calculate_bounds() {
    let points = vec![IntPoint::new(1, 2), IntPoint::new(5, 8), IntPoint::new(3, 4)];

    let bounds = calculate_bounds(&points).unwrap();
    assert_eq!(bounds.min_x, 1);
    assert_eq!(bounds.max_x, 5);
    assert_eq!(bounds.min_y, 2);
    assert_eq!(bounds.max_y, 8);
}

#[test]
fn test_bounds_merge() {
    let bounds1 = DataBounds::new(0, 5, 0, 10).unwrap();
    let bounds2 = DataBounds::new(3, 8, 5, 15).unwrap();

    let merged = bounds1.merge(&bounds2);
    assert_eq!(merged.min_x, 0);
    assert_eq!(merged.max_x, 8);
    assert_eq!(merged.min_y, 0);
    assert_eq!(merged.max_y, 15);
}

#[test]
fn bounds_size_and_multi_series() {
    let b = DataBounds::new(-2, 6, 1, 4).unwrap();
    assert_eq!(b.width(), 8);
    assert_eq!(b.height(), 3);
    let series = vec![vec![IntPoint::new(0, 0)], vec![IntPoint::new(9, -9), IntPoint::new(1, 1)]];
    assert_eq!(
        calculate_multi_series_bounds(&series).unwrap(),
        DataBounds { min_x: 0, max_x: 9, min_y: -9, max_y: 1 }
    );
    let with_empty: Vec<Vec<IntPoint>> = vec![vec![IntPoint::new(0, 0)], vec![]];
    assert!(calculate_multi_series_bounds(&with_empty).is_err());
    let none: Vec<Vec<IntPoint>> = vec![];
    assert!(calculate_multi_series_bounds(&none).is_err());
    let empty: Vec<IntPoint> = vec![];
    assert_eq!(calculate_bounds(&empty).unwrap_err().error_kind(), DataErrorKind::InsufficientData);
}

#[test]
fn test_ring_buffer_basic() {
    let mut buffer: RingBuffer<Point2D, 5> = RingBuffer::new();

    assert!(buffer.is_empty());
    assert_eq!(buffer.len(), 0);
    assert_eq!(buffer.capacity(), 5);

    buffer.push(Point2D::new(1.0, 2.0)).unwrap();
    buffer.push(Point2D::new(2.0, 3.0)).unwrap();

    assert_eq!(buffer.len(), 2);
    assert!(!buffer.is_empty());
    assert!(!buffer.is_full());

    assert_eq!(buffer.peek().unwrap(), &Point2D::new(1.0, 2.0));
    assert_eq!(buffer.peek_newest().unwrap(), &Point2D::new(2.0, 3.0));
}

#[test]
fn test_ring_buffer_overflow() {
    let config = RingBufferConfig { overflow_mode: OverflowMode::Overwrite, ..Default::default() };
    let mut buffer: RingBuffer<Point2D, 3> = RingBuffer::with_config(config);

    for i in 0..5 {
        buffer.push(Point2D::new(i as f32, i as f32)).unwrap();
    }

    assert_eq!(buffer.len(), 3);
    assert!(buffer.is_full());

    let values: Vec<Point2D> = buffer.iter().to_vec();
    assert_eq!(values.len(), 3);
}

#[test]
fn test_ring_buffer_reject_mode() {
    let config = RingBufferConfig { overflow_mode: OverflowMode::Reject, ..Default::default() };
    let mut buffer: RingBuffer<Point2D, 2> = RingBuffer::with_config(config);

    buffer.push(Point2D::new(1.0, 1.0)).unwrap();
    buffer.push(Point2D::new(2.0, 2.0)).unwrap();

    let result = buffer.push(Point2D::new(3.0, 3.0));
    assert!(result.is_err());
    assert_eq!(buffer.len(), 2);
}

#[test]
fn ring_buffer_keeps_arrival_order_after_wrap() {
    let mut b: RingBuffer<i32, 3> = RingBuffer::new();
    for i in 1..=5 {
        b.push(i).unwrap();
    }
    assert_eq!(b.iter_chronological(), vec![3, 4, 5]);
    assert_eq!(b.iter(), &[4, 5, 3]);
    assert_eq!(b.peek(), Some(&3));
    assert_eq!(b.peek_newest(), Some(&5));
    assert_eq!(b.recent(2), vec![4, 5]);
    assert_eq!(b.recent(10), vec![3, 4, 5]);
    assert_eq!(b.pop(), Some(3));
    assert_eq!(b.iter_chronological(), vec![4, 5]);
    b.push(6).unwrap();
    assert_eq!(b.iter_chronological(), vec![4, 5, 6]);
    assert_eq!(b.stats().total_writes, 6);
    assert_eq!(b.stats().overflow_count, 2);
    assert_eq!(b.stats().total_reads, 1);
    assert_eq!(b.stats().peak_usage, 3);
    assert_eq!(b.remaining_capacity(), 0);
    b.reset_stats();
    assert_eq!(b.stats().total_writes, 0);
    b.clear();
    assert_eq!(b.pop(), None);
}

#[test]
fn ring_buffer_events_are_queued() {
    let config = RingBufferConfig {
        overflow_mode: OverflowMode::Callback,
        enable_events: true,
        ..Default::default()
    };
    let mut b: RingBuffer<i32, 2> = RingBuffer::with_config(config);
    b.push(1).unwrap();
    b.push(2).unwrap();
    b.push(3).unwrap();
    assert_eq!(
        b.take_events(),
        vec![
            RingBufferEvent::DataAdded,
            RingBufferEvent::BufferFull,
            RingBufferEvent::DataOverwritten,
            RingBufferEvent::BufferFull,
        ]
    );
    assert_eq!(b.pop(), Some(2));
    assert_eq!(b.pop(), Some(3));
    assert_eq!(b.take_events(), vec![RingBufferEvent::BufferEmpty]);
    assert!(b.take_events().is_empty());
    assert_eq!(b.stats().overflow_count, 0);
}

#[test]
fn ring_buffer_extend_counts_accepted() {
    let config = RingBufferConfig { overflow_mode: OverflowMode::Reject, ..Default::default() };
    let mut b: RingBuffer<i32, 3> = RingBuffer::with_config(config);
    assert_eq!(b.extend(&[1, 2, 3, 4, 5]), Ok(3));
    assert_eq!(b.iter_chronological(), vec![1, 2, 3]);
    let mut o: RingBuffer<i32, 3> = RingBuffer::new();
    assert_eq!(o.extend(&[1, 2, 3, 4, 5]), Ok(5));
    assert_eq!(o.iter_chronological(), vec![3, 4, 5]);
    match b.push(9) {
        Err(ChartError::DataError(e)) => assert_eq!(e, DataError::simple(DataErrorKind::BufferFull)),
        other => panic!("unexpected {:?}", other),
    }
}

#[test]
fn test_streaming_chart_manager() {
    let mut manager: StreamingChartManager<5> = StreamingChartManager::new();
    assert_eq!(manager.active_chart_count(), 0);

    let chart_id = manager.add_chart(ChartType::Line, 1, ChartInstanceConfig::default()).unwrap();

    assert_eq!(chart_id, 0);
    assert_eq!(manager.active_chart_count(), 1);

    manager.update(16).unwrap();
    assert!(manager.metrics().total_updates > 0);
}

#[test]
fn chart_manager_capacity_and_sync() {
    let mut manager: StreamingChartManager<1> = StreamingChartManager::new();
    assert_eq!(manager.add_chart(ChartType::Bar, 3, ChartInstanceConfig::default()), Ok(0));
    assert!(manager.add_chart(ChartType::Gauge, 4, ChartInstanceConfig::default()).is_err());
    manager.update(16).unwrap();
    manager.update(16).unwrap();
    assert_eq!(manager.sync_state().last_sync_time, 1);
    assert_eq!(manager.metrics().total_updates, 2);
    assert_eq!(manager.metrics().avg_update_latency_us, 1000);
}

#[test]
fn merged_bounds_cover_both_sides() {
    let a = DataBounds::new(0, 5, 0, 10).unwrap();
    let b = DataBounds::new(-3, 2, 4, 20).unwrap();
    assert_eq!(a.merge(&b), b.merge(&a));
    let m = a.merge(&b);
    assert!(m.contains(&IntPoint::new(5, 0)));
    assert!(m.contains(&IntPoint::new(-3, 20)));
    let mut e = a;
    e.expand_to_include(&IntPoint::new(9, -1));
    assert!(e.contains(&IntPoint::new(9, -1)));
    assert!(e.contains(&IntPoint::new(0, 10)));
}

#[test]
fn aggregation_groups_cover_the_points() {
    let config = AggregationConfig {
        strategy: AggregationStrategy::Mean,
        target_points: 2,
        preserve_endpoints: false,
        min_group_size: 1,
    };
    assert_eq!(aggregation_groups(4, &config), Some(vec![(0, 2), (2, 4)]));

    let keep_ends = AggregationConfig { target_points: 3, preserve_endpoints: true, ..config };
    assert_eq!(aggregation_groups(10, &keep_ends), Some(vec![(1, 5), (5, 9), (9, 10)]));

    let big_groups = AggregationConfig { target_points: 4, min_group_size: 3, ..config };
    assert_eq!(aggregation_groups(5, &big_groups), Some(vec![(0, 3), (3, 5)]));

    let overflowing = AggregationConfig { target_points: 1, min_group_size: usize::MAX, ..config };
    assert_eq!(aggregation_groups(5, &overflowing), Some(vec![(0, 5)]));
    let overflowing_ends = AggregationConfig { preserve_endpoints: true, ..overflowing };
    assert_eq!(aggregation_groups(5, &overflowing_ends), None);
    assert_eq!(aggregation_groups(usize::MAX, &config), None);
}

#[test]
fn multi_series_changed_in_place() {
    let mut group: MultiSeries<IntPoint, 2, 4> = MultiSeries::new();
    group.add_series(StaticDataSeries::new()).unwrap();
    group.get_series_mut(0).unwrap().push(IntPoint::new(1, 2)).unwrap();
    assert_eq!(group.get_series(0).unwrap().as_slice(), &[IntPoint::new(1, 2)]);
    assert!(group.get_series_mut(1).is_none());
    assert_eq!(group.series_count(), 1);
}

#[test]
fn downsample_of_empty_buffer_is_empty() {
    let buffer: RingBuffer<IntPoint, 4> = RingBuffer::new();
    assert!(buffer.downsample(0).is_empty());
    assert!(buffer.downsample(3).is_empty());
}

#[test]
fn test_point_ring_buffer_features() {
    let mut buffer: RingBuffer<Point2D, 10> = RingBuffer::new();

    for i in 0..5 {
        buffer.push(Point2D::new(i as f32, (i * 2) as f32)).unwrap();
    }

    // Moving average of the three most recent points.
    let window = buffer.recent(3);
    let avg_x = window.iter().map(|p| p.x).sum::<f32>() / window.len() as f32;
    let avg_y = window.iter().map(|p| p.y).sum::<f32>() / window.len() as f32;
    assert_eq!(avg_x, 3.0);
    assert_eq!(avg_y, 6.0);

    let downsampled = buffer.downsample(2);
    assert_eq!(downsampled.len(), 3);

    let (oldest, newest) = (buffer.peek().unwrap(), buffer.peek_newest().unwrap());
    let rate = (newest.y - oldest.y) / (newest.x - oldest.x);
    assert_eq!(rate, 2.0);
}

#[test]
fn extend_counts_and_reports_like_pushes() {
    let config = RingBufferConfig {
        overflow_mode: OverflowMode::Reject,
        enable_events: true,
        ..Default::default()
    };
    let mut b: RingBuffer<i32, 2> = RingBuffer::with_config(config);
    assert_eq!(b.extend(&[1, 2, 3, 4]), Ok(2));
    assert_eq!(b.stats().total_writes, 3);
    assert_eq!(b.stats().peak_usage, 2);
    assert_eq!(b.take_events(), vec![RingBufferEvent::DataAdded, RingBufferEvent::BufferFull]);

    let overwrite = RingBufferConfig { overflow_mode: OverflowMode::Overwrite, ..config };
    let mut o: RingBuffer<i32, 2> = RingBuffer::with_config(overwrite);
    assert_eq!(o.extend(&[1, 2, 3]), Ok(3));
    assert_eq!(o.stats().total_writes, 3);
    assert_eq!(o.stats().overflow_count, 1);
    assert_eq!(
        o.take_events(),
        vec![RingBufferEvent::DataAdded, RingBufferEvent::BufferFull, RingBufferEvent::BufferFull]
    );
}

#[test]
fn combined_bounds_are_tight() {
    let a = vec![IntPoint::new(1, 5), IntPoint::new(3, -2)];
    let b = vec![IntPoint::new(-4, 0), IntPoint::new(2, 9)];
    let bounds = calculate_multi_series_bounds(&[a.clone(), b.clone()]).unwrap();
    assert_eq!(bounds, DataBounds { min_x: -4, max_x: 3, min_y: -2, max_y: 9 });

    let mut group: MultiSeries<IntPoint, 2, 4> = MultiSeries::new();
    group.add_series(StaticDataSeries::from_tuples(&[(1, 5), (3, -2)]).unwrap()).unwrap();
    group.add_series(StaticDataSeries::from_tuples(&[(-4, 0), (2, 9)]).unwrap()).unwrap();
    assert_eq!(group.combined_bounds().unwrap(), DataBounds { min_x: -4, max_x: 3, min_y: -2, max_y: 9 });
}
