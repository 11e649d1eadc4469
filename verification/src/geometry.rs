//! Integer screen geometry: points, sizes and rectangles in pixels.
use vstd::prelude::*;

verus! {

/// A position on the screen.
#[derive(Debug, Clone, Copy, PartialEq, Eq, Structural)]
pub struct Point {
    /// Horizontal coordinate.
    pub x: i32,
    /// Vertical coordinate.
    pub y: i32,
}

impl Point {
    /// Creates a point.
    pub fn new(x: i32, y: i32) -> (r: Self)
        ensures
            r == (Point { x, y }),
    {
        Point { x, y }
    }
}

/// A width and a height.
#[derive(Debug, Clone, Copy, PartialEq, Eq, Structural)]
pub struct Size {
    /// Width in pixels.
    pub width: u32,
    /// Height in pixels.
    pub height: u32,
}

impl Size {
    /// Creates a size.
    pub fn new(width: u32, height: u32) -> (r: Self)
        ensures
            r == (Size { width, height }),
    {
        Size { width, height }
    }
}

/// An axis-aligned rectangle given by its top-left corner and its size.
#[derive(Debug, Clone, Copy, PartialEq, Eq, Structural)]
pub struct Rectangle {
    /// The top-left corner.
    pub top_left: Point,
    /// The size.
    pub size: Size,
}

impl Rectangle {
    /// Creates a rectangle.
    pub fn new(top_left: Point, size: Size) -> (r: Self)
        ensures
            r == (Rectangle { top_left, size }),
    {
        Rectangle { top_left, size }
    }
}

/// The value of `v` read as a two's-complement `i32`, as `v as i32` does.
pub open spec fn as_i32(v: u32) -> int {
    if v <= i32::MAX {
        v as int
    } else {
        v - 0x1_0000_0000
    }
}

/// `a - b`, or zero when that is negative.
pub open spec fn sat_sub(a: int, b: int) -> int {
    if a >= b {
        a - b
    } else {
        0
    }
}

/// Reads `v` as a two's-complement `i32`.
pub fn u32_to_i32(v: u32) -> (r: i32)
    ensures
        r == as_i32(v),
{
    assert((v as i32) as int == if v <= 0x7fff_ffffu32 {
        v as int
    } else {
        v as int - 0x1_0000_0000
    }) by (bit_vector);
    #[verifier::truncate]
    (v as i32)
}

} // verus!
