use embedded_charts::error::{
    push_decimal, AnimationError, ChartError, DataError, DataErrorKind, ErrorContext, LayoutError,
    RenderError,
};

#[test]
fn error_context_constructors() {
    let c = ErrorContext::new("op", "hint");
    assert_eq!(c.operation, "op");
    assert_eq!(c.hint, "hint");
    assert_eq!(c.numeric_context, None);
    let n = ErrorContext::with_numeric("op", "hint", 7);
    assert_eq!(n.numeric_context, Some(7));
}

#[test]
fn data_error_constructors() {
    match DataError::buffer_full("push", 10) {
        DataError::BufferFull { context: Some(c) } => {
            assert_eq!(c.operation, "push");
            assert_eq!(c.hint, "Increase buffer capacity or remove old data");
            assert_eq!(c.numeric_context, Some(10));
        }
        other => panic!("unexpected {:?}", other),
    }
    match DataError::insufficient_data("avg", 3, 1) {
        DataError::InsufficientData { context: Some(c) } => assert_eq!(c.numeric_context, Some(1)),
        other => panic!("unexpected {:?}", other),
    }
    match DataError::index_out_of_bounds("get", 9, 4) {
        DataError::IndexOutOfBounds { context: Some(c) } => assert_eq!(c.numeric_context, Some(4)),
        other => panic!("unexpected {:?}", other),
    }
    match DataError::invalid_data_point("check") {
        DataError::InvalidDataPoint { context: Some(c) } => assert_eq!(c.numeric_context, None),
        other => panic!("unexpected {:?}", other),
    }
    assert_eq!(DataError::simple(DataErrorKind::ScalingError), DataError::ScalingError { context: None });
    assert_eq!(DataError::simple(DataErrorKind::SeriesNotFound).context(), None);
}

#[test]
fn error_conversions() {
    let d = DataError::simple(DataErrorKind::BufferFull);
    assert_eq!(ChartError::from(d), ChartError::DataError(d));
    assert_eq!(ChartError::from(LayoutError::PositioningFailed), ChartError::InvalidConfiguration);
    assert_eq!(ChartError::from(RenderError::ClippingFailed), ChartError::RenderingError);
    assert_eq!(
        ChartError::from(AnimationError::SchedulerFull),
        ChartError::AnimationError(AnimationError::SchedulerFull)
    );
    assert_eq!(DataError::from("bad"), DataError::InvalidDataPoint { context: None });
}

#[test]
fn error_messages() {
    assert_eq!(
        DataError::buffer_full("push data point", 256).message(),
        "Buffer capacity exceeded during push data point (hint: Increase buffer capacity or remove old data) [capacity: 256]"
    );
    assert_eq!(
        DataError::invalid_data_point("validate").message(),
        "Invalid data point provided during validate (hint: Ensure data points contain valid finite values)"
    );
    assert_eq!(DataError::simple(DataErrorKind::SeriesNotFound).message(), "Requested data series was not found");
    assert_eq!(
        ChartError::DataError(DataError::insufficient_data("bounds", 1, 0)).message(),
        "Data error: Insufficient data to perform operation during bounds (hint: Add more data points) [found: 0]"
    );
    assert_eq!(ChartError::MemoryFull.message(), "Memory allocation failed or buffer is full");
    assert_eq!(ChartError::LayoutError(LayoutError::InsufficientSpace).message(), "Layout error: Insufficient space for layout");
    assert_eq!(RenderError::DrawingFailed.describe(), "Drawing operation failed");
    assert_eq!(AnimationError::InvalidDuration.describe(), "Invalid duration specified");
}

#[test]
fn decimal_formatting() {
    let mut s = String::from("n=");
    push_decimal(&mut s, 0);
    assert_eq!(s, "n=0");
    let mut t = String::new();
    push_decimal(&mut t, 1234567890);
    assert_eq!(t, "1234567890");
}
