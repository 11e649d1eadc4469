//! Data point types and the trait every chart point implements.
use crate::error::DataResult;
use vstd::prelude::*;

verus! {

/// A point that can be stored in a data series.
pub trait DataPoint: Copy + Clone + PartialEq + Sized {
    /// The type of the X coordinate.
    type X: Copy;
    /// The type of the Y coordinate.
    type Y: Copy;

    /// The X coordinate, as a mathematical value.
    spec fn x_of(&self) -> Self::X;

    /// The Y coordinate, as a mathematical value.
    spec fn y_of(&self) -> Self::Y;

    /// The X coordinate of this point.
    fn x(&self) -> (r: Self::X)
        ensures
            r == self.x_of(),
    ;

    /// The Y coordinate of this point.
    fn y(&self) -> (r: Self::Y)
        ensures
            r == self.y_of(),
    ;

    /// Builds a point from its coordinates.
    fn new(x: Self::X, y: Self::Y) -> (r: Self)
        ensures
            r.x_of() == x,
            r.y_of() == y,
    ;
}

/// A point with integer coordinates, for memory-constrained targets.
#[derive(Debug, Clone, Copy, PartialEq, Eq)]
pub struct IntPoint {
    /// X coordinate.
    pub x: i32,
    /// Y coordinate.
    pub y: i32,
}

impl IntPoint {
    /// Creates a point from its coordinates.
    pub fn new(x: i32, y: i32) -> (r: Self)
        ensures
            r.x == x,
            r.y == y,
    {
        IntPoint { x, y }
    }
}

impl DataPoint for IntPoint {
    type X = i32;
    type Y = i32;

    open spec fn x_of(&self) -> i32 {
        self.x
    }

    open spec fn y_of(&self) -> i32 {
        self.y
    }

    fn x(&self) -> (r: i32) {
        self.x
    }

    fn y(&self) -> (r: i32) {
        self.y
    }

    fn new(x: i32, y: i32) -> (r: Self) {
        IntPoint { x, y }
    }
}

impl From<(i32, i32)> for IntPoint {
    fn from(pair: (i32, i32)) -> (r: IntPoint) {
        IntPoint { x: pair.0, y: pair.1 }
    }
}

impl vstd::std_specs::convert::FromSpecImpl<(i32, i32)> for IntPoint {
    open spec fn obeys_from_spec() -> bool {
        true
    }

    open spec fn from_spec(pair: (i32, i32)) -> IntPoint {
        IntPoint { x: pair.0, y: pair.1 }
    }
}

impl From<IntPoint> for (i32, i32) {
    fn from(point: IntPoint) -> (r: (i32, i32)) {
        (point.x, point.y)
    }
}

impl vstd::std_specs::convert::FromSpecImpl<IntPoint> for (i32, i32) {
    open spec fn obeys_from_spec() -> bool {
        true
    }

    open spec fn from_spec(point: IntPoint) -> (i32, i32) {
        (point.x, point.y)
    }
}

/// Checks that a point with integer coordinates is usable: every `i32`
/// value is, so every such point is accepted.  (Points with floating-point
/// coordinates are checked for NaN and infinity outside this library.)
pub fn validate_point<P: DataPoint<X = i32, Y = i32>>(point: &P) -> (r: DataResult<()>)
    ensures
        r is Ok,
{
    Ok(())
}

} // verus!
