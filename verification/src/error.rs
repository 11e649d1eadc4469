//! Error types shared by every part of the library.
//!
//! Each error is a small `Copy` value: no message is allocated when an error is
//! raised, and a readable description is produced on demand.
use vstd::prelude::*;

verus! {

/// Extra information attached to a data error.
#[derive(Debug, Clone, Copy, PartialEq, Eq)]
pub struct ErrorContext {
    /// The operation that was being performed when the error occurred.
    pub operation: &'static str,
    /// A hint for resolving the error.
    pub hint: &'static str,
    /// Optional numeric context (a count, a capacity, a length).
    pub numeric_context: Option<usize>,
}

impl ErrorContext {
    /// Creates a context without numeric information.
    pub fn new(operation: &'static str, hint: &'static str) -> (r: Self)
        ensures
            r.operation@ == operation@,
            r.hint@ == hint@,
            r.numeric_context == None::<usize>,
    {
        ErrorContext { operation, hint, numeric_context: None }
    }

    /// Creates a context that carries a number.
    pub fn with_numeric(operation: &'static str, hint: &'static str, value: usize) -> (r: Self)
        ensures
            r.operation@ == operation@,
            r.hint@ == hint@,
            r.numeric_context == Some(value),
    {
        ErrorContext { operation, hint, numeric_context: Some(value) }
    }
}

/// Errors in chart layout.
#[derive(Debug, Clone, Copy, PartialEq, Eq, Structural)]
pub enum LayoutError {
    /// The viewport is too small for the requested layout.
    InsufficientSpace,
    /// The layout parameters are invalid or conflicting.
    InvalidConfiguration,
    /// A component could not be placed.
    PositioningFailed,
}

/// Errors while drawing.
#[derive(Debug, Clone, Copy, PartialEq, Eq, Structural)]
pub enum RenderError {
    /// A drawing operation failed.
    DrawingFailed,
    /// Text could not be rendered.
    TextRenderingFailed,
    /// A clipping region could not be set up.
    ClippingFailed,
    /// A colour could not be converted.
    ColorConversionFailed,
}

/// Errors of the animation system.
#[derive(Debug, Clone, Copy, PartialEq, Eq, Structural)]
pub enum AnimationError {
    /// The duration is zero, negative or too large.
    InvalidDuration,
    /// No animation has the given identifier.
    AnimationNotFound,
    /// The scheduler has no room for another animation.
    SchedulerFull,
    /// Interpolation between keyframes failed.
    InterpolationError,
    /// The operation does not fit the animation's state.
    InvalidState,
}

/// The kinds of data error, without context.
#[derive(Debug, Clone, Copy, PartialEq, Eq, Structural)]
pub enum DataErrorKind {
    SeriesNotFound,
    IndexOutOfBounds,
    InvalidDataPoint,
    ScalingError,
    BufferFull,
    InsufficientData,
}

/// Errors of data management: series, points, buffers.
#[derive(Debug, Clone, Copy, PartialEq, Eq)]
pub enum DataError {
    /// The requested series does not exist.
    SeriesNotFound { context: Option<ErrorContext> },
    /// An index is out of bounds.
    IndexOutOfBounds { context: Option<ErrorContext> },
    /// A data point holds invalid values.
    InvalidDataPoint { context: Option<ErrorContext> },
    /// Scaling or normalising data failed.
    ScalingError { context: Option<ErrorContext> },
    /// A fixed-capacity buffer is full.
    BufferFull { context: Option<ErrorContext> },
    /// An operation needs more data than is available.
    InsufficientData { context: Option<ErrorContext> },
}

/// Main error type of chart operations.
#[derive(Debug, Clone, Copy, PartialEq, Eq)]
pub enum ChartError {
    InsufficientData,
    InvalidRange,
    InvalidData,
    MemoryFull,
    RenderingError,
    InvalidConfiguration,
    ConfigurationError,
    RenderError(RenderError),
    LayoutError(LayoutError),
    DataError(DataError),
    AnimationError(AnimationError),
}

/// Result of chart operations.
pub type ChartResult<T> = Result<T, ChartError>;

/// Result of data operations.
pub type DataResult<T> = Result<T, DataError>;

/// Result of animation operations.
pub type AnimationResult<T> = Result<T, AnimationError>;

/// Result of layout operations.
pub type LayoutResult<T> = Result<T, LayoutError>;

/// Result of rendering operations.
pub type RenderResult<T> = Result<T, RenderError>;

impl DataError {
    /// The kind of this error.
    pub open spec fn kind(self) -> DataErrorKind {
        match self {
            DataError::SeriesNotFound { .. } => DataErrorKind::SeriesNotFound,
            DataError::IndexOutOfBounds { .. } => DataErrorKind::IndexOutOfBounds,
            DataError::InvalidDataPoint { .. } => DataErrorKind::InvalidDataPoint,
            DataError::ScalingError { .. } => DataErrorKind::ScalingError,
            DataError::BufferFull { .. } => DataErrorKind::BufferFull,
            DataError::InsufficientData { .. } => DataErrorKind::InsufficientData,
        }
    }

    /// The context attached to this error, if any.
    pub open spec fn context_of(self) -> Option<ErrorContext> {
        match self {
            DataError::SeriesNotFound { context } => context,
            DataError::IndexOutOfBounds { context } => context,
            DataError::InvalidDataPoint { context } => context,
            DataError::ScalingError { context } => context,
            DataError::BufferFull { context } => context,
            DataError::InsufficientData { context } => context,
        }
    }

    /// Whether this is the given kind with no context.
    pub open spec fn is_simple(self, kind: DataErrorKind) -> bool {
        self.kind() == kind && self.context_of() is None
    }

    /// Whether this error has the given kind and a context with the given
    /// operation, hint and number.
    pub open spec fn has_context(
        self,
        kind: DataErrorKind,
        operation: Seq<char>,
        hint: Seq<char>,
        value: Option<usize>,
    ) -> bool {
        &&& self.kind() == kind
        &&& self.context_of() is Some
        &&& self.context_of()->0.operation@ == operation
        &&& self.context_of()->0.hint@ == hint
        &&& self.context_of()->0.numeric_context == value
    }

    /// A `BufferFull` error that records the capacity that was exceeded.
    pub fn buffer_full(operation: &'static str, capacity: usize) -> (r: Self)
        ensures
            r.has_context(
                DataErrorKind::BufferFull,
                operation@,
                "Increase buffer capacity or remove old data"@,
                Some(capacity),
            ),
    {
        DataError::BufferFull {
            context: Some(
                ErrorContext::with_numeric(
                    operation,
                    "Increase buffer capacity or remove old data",
                    capacity,
                ),
            ),
        }
    }

    /// An `InsufficientData` error that records how many items were found.
    pub fn insufficient_data(operation: &'static str, required: usize, found: usize) -> (r: Self)
        ensures
            r.has_context(
                DataErrorKind::InsufficientData,
                operation@,
                "Add more data points"@,
                Some(found),
            ),
    {
        DataError::InsufficientData {
            context: Some(ErrorContext::with_numeric(operation, "Add more data points", found)),
        }
    }

    /// An `IndexOutOfBounds` error that records the length of the collection.
    pub fn index_out_of_bounds(operation: &'static str, index: usize, length: usize) -> (r: Self)
        ensures
            r.has_context(
                DataErrorKind::IndexOutOfBounds,
                operation@,
                "Check array bounds before accessing"@,
                Some(length),
            ),
    {
        DataError::IndexOutOfBounds {
            context: Some(
                ErrorContext::with_numeric(operation, "Check array bounds before accessing", length),
            ),
        }
    }

    /// An `InvalidDataPoint` error with context.
    pub fn invalid_data_point(operation: &'static str) -> (r: Self)
        ensures
            r.has_context(
                DataErrorKind::InvalidDataPoint,
                operation@,
                "Ensure data points contain valid finite values"@,
                None,
            ),
    {
        DataError::InvalidDataPoint {
            context: Some(
                ErrorContext::new(operation, "Ensure data points contain valid finite values"),
            ),
        }
    }

    /// An error of the given kind without context.
    pub fn simple(kind: DataErrorKind) -> (r: Self)
        ensures
            r.is_simple(kind),
    {
        match kind {
            DataErrorKind::SeriesNotFound => DataError::SeriesNotFound { context: None },
            DataErrorKind::IndexOutOfBounds => DataError::IndexOutOfBounds { context: None },
            DataErrorKind::InvalidDataPoint => DataError::InvalidDataPoint { context: None },
            DataErrorKind::ScalingError => DataError::ScalingError { context: None },
            DataErrorKind::BufferFull => DataError::BufferFull { context: None },
            DataErrorKind::InsufficientData => DataError::InsufficientData { context: None },
        }
    }

    /// The kind of this error.
    pub fn error_kind(&self) -> (r: DataErrorKind)
        ensures
            r == self.kind(),
    {
        match self {
            DataError::SeriesNotFound { .. } => DataErrorKind::SeriesNotFound,
            DataError::IndexOutOfBounds { .. } => DataErrorKind::IndexOutOfBounds,
            DataError::InvalidDataPoint { .. } => DataErrorKind::InvalidDataPoint,
            DataError::ScalingError { .. } => DataErrorKind::ScalingError,
            DataError::BufferFull { .. } => DataErrorKind::BufferFull,
            DataError::InsufficientData { .. } => DataErrorKind::InsufficientData,
        }
    }

    /// The context attached to this error, if any.
    pub fn context(&self) -> (r: Option<ErrorContext>)
        ensures
            r == self.context_of(),
    {
        match self {
            DataError::SeriesNotFound { context } => *context,
            DataError::IndexOutOfBounds { context } => *context,
            DataError::InvalidDataPoint { context } => *context,
            DataError::ScalingError { context } => *context,
            DataError::BufferFull { context } => *context,
            DataError::InsufficientData { context } => *context,
        }
    }
}

impl From<DataError> for ChartError {
    fn from(error: DataError) -> (r: ChartError) {
        ChartError::DataError(error)
    }
}

impl vstd::std_specs::convert::FromSpecImpl<DataError> for ChartError {
    open spec fn obeys_from_spec() -> bool {
        true
    }

    open spec fn from_spec(error: DataError) -> ChartError {
        ChartError::DataError(error)
    }
}

impl From<AnimationError> for ChartError {
    fn from(error: AnimationError) -> (r: ChartError) {
        ChartError::AnimationError(error)
    }
}

impl vstd::std_specs::convert::FromSpecImpl<AnimationError> for ChartError {
    open spec fn obeys_from_spec() -> bool {
        true
    }

    open spec fn from_spec(error: AnimationError) -> ChartError {
        ChartError::AnimationError(error)
    }
}

impl From<LayoutError> for ChartError {
    fn from(error: LayoutError) -> (r: ChartError) {
        ChartError::InvalidConfiguration
    }
}

impl vstd::std_specs::convert::FromSpecImpl<LayoutError> for ChartError {
    open spec fn obeys_from_spec() -> bool {
        true
    }

    open spec fn from_spec(error: LayoutError) -> ChartError {
        ChartError::InvalidConfiguration
    }
}

impl From<RenderError> for ChartError {
    fn from(error: RenderError) -> (r: ChartError) {
        ChartError::RenderingError
    }
}

impl vstd::std_specs::convert::FromSpecImpl<RenderError> for ChartError {
    open spec fn obeys_from_spec() -> bool {
        true
    }

    open spec fn from_spec(error: RenderError) -> ChartError {
        ChartError::RenderingError
    }
}

impl<'a> From<&'a str> for DataError {
    fn from(message: &'a str) -> (r: DataError) {
        DataError::simple(DataErrorKind::InvalidDataPoint)
    }
}

impl<'a> vstd::std_specs::convert::FromSpecImpl<&'a str> for DataError {
    open spec fn obeys_from_spec() -> bool {
        true
    }

    open spec fn from_spec(message: &'a str) -> DataError {
        DataError::InvalidDataPoint { context: None }
    }
}

/// The decimal digit `d`, for `d < 10`.
pub open spec fn digit_char(d: nat) -> char {
    if d == 0 {
        '0'
    } else if d == 1 {
        '1'
    } else if d == 2 {
        '2'
    } else if d == 3 {
        '3'
    } else if d == 4 {
        '4'
    } else if d == 5 {
        '5'
    } else if d == 6 {
        '6'
    } else if d == 7 {
        '7'
    } else if d == 8 {
        '8'
    } else {
        '9'
    }
}

/// The decimal representation of `n`, without leading zeros.
pub open spec fn decimal(n: nat) -> Seq<char>
    decreases n,
{
    if n < 10 {
        seq![digit_char(n)]
    } else {
        decimal(n / 10).push(digit_char(n % 10))
    }
}

fn digit_str(d: usize) -> (r: &'static str)
    requires
        d < 10,
    ensures
        r@ == seq![digit_char(d as nat)],
{
    if d == 0 {
        proof {
            reveal_strlit("0");
        }
        "0"
    } else if d == 1 {
        proof {
            reveal_strlit("1");
        }
        "1"
    } else if d == 2 {
        proof {
            reveal_strlit("2");
        }
        "2"
    } else if d == 3 {
        proof {
            reveal_strlit("3");
        }
        "3"
    } else if d == 4 {
        proof {
            reveal_strlit("4");
        }
        "4"
    } else if d == 5 {
        proof {
            reveal_strlit("5");
        }
        "5"
    } else if d == 6 {
        proof {
            reveal_strlit("6");
        }
        "6"
    } else if d == 7 {
        proof {
            reveal_strlit("7");
        }
        "7"
    } else if d == 8 {
        proof {
            reveal_strlit("8");
        }
        "8"
    } else {
        proof {
            reveal_strlit("9");
        }
        "9"
    }
}

/// Appends the decimal representation of `n` to `out`.
pub fn push_decimal(out: &mut String, n: usize)
    ensures
        final(out)@ == old(out)@ + decimal(n as nat),
    decreases n,
{
    if n >= 10 {
        push_decimal(out, n / 10);
    }
    out.append(digit_str(n % 10));
    proof {
        if n >= 10 {
            assert(decimal(n as nat) == decimal((n / 10) as nat).push(digit_char((n % 10) as nat)));
        }
    }
}

impl LayoutError {
    /// The description of this error.
    pub open spec fn text(self) -> Seq<char> {
        match self {
            LayoutError::InsufficientSpace => "Insufficient space for layout"@,
            LayoutError::InvalidConfiguration => "Invalid layout configuration"@,
            LayoutError::PositioningFailed => "Component positioning failed"@,
        }
    }

    /// The description of this error.
    pub fn describe(&self) -> (r: &'static str)
        ensures
            r@ == self.text(),
    {
        match self {
            LayoutError::InsufficientSpace => "Insufficient space for layout",
            LayoutError::InvalidConfiguration => "Invalid layout configuration",
            LayoutError::PositioningFailed => "Component positioning failed",
        }
    }
}

impl RenderError {
    /// The description of this error.
    pub open spec fn text(self) -> Seq<char> {
        match self {
            RenderError::DrawingFailed => "Drawing operation failed"@,
            RenderError::TextRenderingFailed => "Text rendering failed"@,
            RenderError::ClippingFailed => "Clipping operation failed"@,
            RenderError::ColorConversionFailed => "Color conversion failed"@,
        }
    }

    /// The description of this error.
    pub fn describe(&self) -> (r: &'static str)
        ensures
            r@ == self.text(),
    {
        match self {
            RenderError::DrawingFailed => "Drawing operation failed",
            RenderError::TextRenderingFailed => "Text rendering failed",
            RenderError::ClippingFailed => "Clipping operation failed",
            RenderError::ColorConversionFailed => "Color conversion failed",
        }
    }
}

impl AnimationError {
    /// The description of this error.
    pub open spec fn text(self) -> Seq<char> {
        match self {
            AnimationError::InvalidDuration => "Invalid duration specified"@,
            AnimationError::AnimationNotFound => "Animation with specified ID was not found"@,
            AnimationError::SchedulerFull => "Animation scheduler is full"@,
            AnimationError::InterpolationError => "Error occurred during interpolation"@,
            AnimationError::InvalidState => "Animation state is invalid"@,
        }
    }

    /// The description of this error.
    pub fn describe(&self) -> (r: &'static str)
        ensures
            r@ == self.text(),
    {
        match self {
            AnimationError::InvalidDuration => "Invalid duration specified",
            AnimationError::AnimationNotFound => "Animation with specified ID was not found",
            AnimationError::SchedulerFull => "Animation scheduler is full",
            AnimationError::InterpolationError => "Error occurred during interpolation",
            AnimationError::InvalidState => "Animation state is invalid",
        }
    }
}

impl DataError {
    /// The sentence that opens the description of an error of this kind.
    pub open spec fn headline(kind: DataErrorKind) -> Seq<char> {
        match kind {
            DataErrorKind::SeriesNotFound => "Requested data series was not found"@,
            DataErrorKind::IndexOutOfBounds => "Index is out of bounds for the data collection"@,
            DataErrorKind::InvalidDataPoint => "Invalid data point provided"@,
            DataErrorKind::ScalingError => "Error occurred during data scaling"@,
            DataErrorKind::BufferFull => "Buffer capacity exceeded"@,
            DataErrorKind::InsufficientData => "Insufficient data to perform operation"@,
        }
    }

    /// The label of the number reported by errors of this kind, if they
    /// report one.
    pub open spec fn number_label(kind: DataErrorKind) -> Option<Seq<char>> {
        match kind {
            DataErrorKind::IndexOutOfBounds => Some(" [length: "@),
            DataErrorKind::BufferFull => Some(" [capacity: "@),
            DataErrorKind::InsufficientData => Some(" [found: "@),
            _ => None,
        }
    }

    /// The full description: the headline, then the operation and hint of
    /// the context, then the number for the kinds that report one.
    pub open spec fn message_spec(self) -> Seq<char> {
        let head = DataError::headline(self.kind());
        match self.context_of() {
            None => head,
            Some(ctx) => {
                let with_ctx = head + " during "@ + ctx.operation@ + " (hint: "@ + ctx.hint@ + ")"@;
                match (DataError::number_label(self.kind()), ctx.numeric_context) {
                    (Some(label), Some(n)) => with_ctx + label + decimal(n as nat) + "]"@,
                    _ => with_ctx,
                }
            },
        }
    }

    fn headline_str(kind: DataErrorKind) -> (r: &'static str)
        ensures
            r@ == DataError::headline(kind),
    {
        match kind {
            DataErrorKind::SeriesNotFound => "Requested data series was not found",
            DataErrorKind::IndexOutOfBounds => "Index is out of bounds for the data collection",
            DataErrorKind::InvalidDataPoint => "Invalid data point provided",
            DataErrorKind::ScalingError => "Error occurred during data scaling",
            DataErrorKind::BufferFull => "Buffer capacity exceeded",
            DataErrorKind::InsufficientData => "Insufficient data to perform operation",
        }
    }

    fn number_label_str(kind: DataErrorKind) -> (r: Option<&'static str>)
        ensures
            r is Some <==> DataError::number_label(kind) is Some,
            r matches Some(s) ==> DataError::number_label(kind) == Some(s@),
    {
        match kind {
            DataErrorKind::IndexOutOfBounds => Some(" [length: "),
            DataErrorKind::BufferFull => Some(" [capacity: "),
            DataErrorKind::InsufficientData => Some(" [found: "),
            _ => None,
        }
    }

    /// The full description of this error.
    pub fn message(&self) -> (r: String)
        ensures
            r@ == self.message_spec(),
    {
        let kind = self.error_kind();
        let mut out = String::new();
        out.append(DataError::headline_str(kind));
        match self.context() {
            None => {},
            Some(ctx) => {
                out.append(" during ");
                out.append(ctx.operation);
                out.append(" (hint: ");
                out.append(ctx.hint);
                out.append(")");
                match (DataError::number_label_str(kind), ctx.numeric_context) {
                    (Some(label), Some(n)) => {
                        out.append(label);
                        push_decimal(&mut out, n);
                        out.append("]");
                    },
                    _ => {},
                }
            },
        }
        out
    }
}

impl ChartError {
    /// The full description of this error.
    pub open spec fn message_spec(self) -> Seq<char> {
        match self {
            ChartError::InsufficientData => "Insufficient data to render the chart"@,
            ChartError::InvalidRange => "Invalid range specified for axis or data"@,
            ChartError::InvalidData => "Invalid data provided"@,
            ChartError::MemoryFull => "Memory allocation failed or buffer is full"@,
            ChartError::RenderingError => "Error occurred during rendering"@,
            ChartError::InvalidConfiguration => "Invalid configuration provided"@,
            ChartError::ConfigurationError => "Configuration error occurred"@,
            ChartError::RenderError(e) => "Render error: "@ + e.text(),
            ChartError::LayoutError(e) => "Layout error: "@ + e.text(),
            ChartError::DataError(e) => "Data error: "@ + e.message_spec(),
            ChartError::AnimationError(e) => "Animation error: "@ + e.text(),
        }
    }

    /// The full description of this error.
    pub fn message(&self) -> (r: String)
        ensures
            r@ == self.message_spec(),
    {
        let mut out = String::new();
        match self {
            ChartError::InsufficientData => out.append("Insufficient data to render the chart"),
            ChartError::InvalidRange => out.append("Invalid range specified for axis or data"),
            ChartError::InvalidData => out.append("Invalid data provided"),
            ChartError::MemoryFull => out.append("Memory allocation failed or buffer is full"),
            ChartError::RenderingError => out.append("Error occurred during rendering"),
            ChartError::InvalidConfiguration => out.append("Invalid configuration provided"),
            ChartError::ConfigurationError => out.append("Configuration error occurred"),
            ChartError::RenderError(e) => {
                out.append("Render error: ");
                out.append(e.describe());
            },
            ChartError::LayoutError(e) => {
                out.append("Layout error: ");
                out.append(e.describe());
            },
            ChartError::DataError(e) => {
                out.append("Data error: ");
                let m = e.message();
                out.append(m.as_str());
            },
            ChartError::AnimationError(e) => {
                out.append("Animation error: ");
                out.append(e.describe());
            },
        }
        out
    }
}

} // verus!
