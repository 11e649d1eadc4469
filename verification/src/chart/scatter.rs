//! The shapes that make up a scatter-chart marker.
use crate::geometry::{as_i32, Point, Rectangle};
use vstd::prelude::*;

verus! {

/// The shape of a scatter-chart marker.
#[derive(Debug, Clone, Copy, PartialEq, Eq, Structural)]
pub enum PointShape {
    /// A filled circle.
    Circle,
    /// A filled square.
    Square,
    /// A filled diamond.
    Diamond,
    /// A filled triangle pointing up.
    Triangle,
    /// A plus sign of two lines.
    Cross,
    /// An X of two diagonal lines.
    X,
    /// A star, drawn as a filled circle.
    Star,
}

/// One drawing primitive of a marker, in screen pixels.
#[derive(Debug, Clone, Copy, PartialEq, Eq, Structural)]
pub enum MarkerPrimitive {
    /// A filled circle in the square at `top_left` with side `diameter`.
    FilledCircle { top_left: Point, diameter: u32 },
    /// A filled square at `top_left` with side `size`.
    FilledSquare { top_left: Point, size: u32 },
    /// A filled diamond of width and height `size` around `center`.
    FilledDiamond { center: Point, size: u32 },
    /// A filled triangle with corners `a`, `b` and `c`.
    FilledTriangle { a: Point, b: Point, c: Point },
    /// A line from `start` to `end`, `width` pixels wide.
    Line { start: Point, end: Point, width: u32 },
    /// The outline, `width` pixels wide, of the circle in the square at
    /// `top_left` with side `diameter`.
    CircleOutline { top_left: Point, diameter: u32, width: u32 },
    /// The outline, `width` pixels wide, of the square at `top_left` with
    /// side `size`.
    SquareOutline { top_left: Point, size: u32, width: u32 },
}

/// The width of the lines of cross and X markers.
pub const MARKER_STROKE_WIDTH: u32 = 2;

/// The point `(x, y)`.
pub open spec fn pt(x: int, y: int) -> Point {
    Point { x: x as i32, y: y as i32 }
}

/// `v / 2` rounded towards zero, as integer division does.
pub open spec fn half_toward_zero(v: int) -> int {
    if v >= 0 {
        v / 2
    } else {
        -((-v) / 2)
    }
}

/// A marker of `size` centred at `center` lies wholly beyond `target`, even
/// allowing half its size of margin, and is not drawn.
pub open spec fn marker_culled(center: Point, size: u32, target: Rectangle) -> bool {
    let r = (size / 2) as int;
    ||| center.x < target.top_left.x - r
    ||| center.x >= target.top_left.x + as_i32(target.size.width) + r
    ||| center.y < target.top_left.y - r
    ||| center.y >= target.top_left.y + as_i32(target.size.height) + r
}

/// The primitives of the marker's body.
pub open spec fn marker_body(center: Point, size: u32, shape: PointShape) -> Seq<MarkerPrimitive> {
    let r = (size / 2) as int;
    let corner = pt(center.x - r, center.y - r);
    let h = half_toward_zero(as_i32(size));
    match shape {
        PointShape::Circle | PointShape::Star => seq![
            MarkerPrimitive::FilledCircle { top_left: corner, diameter: size },
        ],
        PointShape::Square => seq![MarkerPrimitive::FilledSquare { top_left: corner, size }],
        PointShape::Diamond => seq![MarkerPrimitive::FilledDiamond { center, size }],
        PointShape::Triangle => seq![
            MarkerPrimitive::FilledTriangle {
                a: pt(center.x as int, center.y - h),
                b: pt(center.x - h, center.y + h),
                c: pt(center.x + h, center.y + h),
            },
        ],
        PointShape::Cross => seq![
            MarkerPrimitive::Line {
                start: pt(center.x as int, center.y - r),
                end: pt(center.x as int, center.y + r),
                width: MARKER_STROKE_WIDTH,
            },
            MarkerPrimitive::Line {
                start: pt(center.x - r, center.y as int),
                end: pt(center.x + r, center.y as int),
                width: MARKER_STROKE_WIDTH,
            },
        ],
        PointShape::X => seq![
            MarkerPrimitive::Line {
                start: pt(center.x - r, center.y - r),
                end: pt(center.x + r, center.y + r),
                width: MARKER_STROKE_WIDTH,
            },
            MarkerPrimitive::Line {
                start: pt(center.x - r, center.y + r),
                end: pt(center.x + r, center.y - r),
                width: MARKER_STROKE_WIDTH,
            },
        ],
    }
}

/// The outline drawn around the marker when it has a border `width` pixels
/// wide: a square for square markers, a circle otherwise.
pub open spec fn marker_border(center: Point, size: u32, shape: PointShape, border: Option<u32>) -> Seq<
    MarkerPrimitive,
> {
    let r = (size / 2) as int;
    let corner = pt(center.x - r, center.y - r);
    match border {
        None => Seq::empty(),
        Some(width) => if shape == PointShape::Square {
            seq![MarkerPrimitive::SquareOutline { top_left: corner, size, width }]
        } else {
            seq![MarkerPrimitive::CircleOutline { top_left: corner, diameter: size, width }]
        },
    }
}

/// The primitives of a marker: nothing when it is culled, else its body and
/// then its border.
pub open spec fn marker_spec(
    center: Point,
    size: u32,
    shape: PointShape,
    border: Option<u32>,
    target: Rectangle,
) -> Seq<MarkerPrimitive> {
    if marker_culled(center, size, target) {
        Seq::empty()
    } else {
        marker_body(center, size, shape) + marker_border(center, size, shape, border)
    }
}

/// `v` is an `i32` value.
pub open spec fn fits(v: int) -> bool {
    i32::MIN <= v <= i32::MAX
}

/// The coordinates that the culling test computes stay within `i32`, in the
/// order the test computes them (it stops at the first side found out).
pub open spec fn cull_fits(center: Point, size: u32, target: Rectangle) -> bool {
    let r = (size / 2) as int;
    let x0 = target.top_left.x as int;
    let y0 = target.top_left.y as int;
    let w = as_i32(target.size.width);
    let h = as_i32(target.size.height);
    &&& fits(x0 - r)
    &&& center.x >= x0 - r ==> fits(x0 + w) && fits(x0 + w + r)
    &&& center.x >= x0 - r && center.x < x0 + w + r ==> fits(y0 - r)
    &&& center.x >= x0 - r && center.x < x0 + w + r && center.y >= y0 - r ==> fits(y0 + h) && fits(
        y0 + h + r,
    )
}

/// The coordinates of the marker's body and border stay within `i32`.
pub open spec fn shape_fits(center: Point, size: u32, shape: PointShape, border: Option<u32>) -> bool {
    let r = (size / 2) as int;
    let h = half_toward_zero(as_i32(size));
    let corner_fits = fits(center.x - r) && fits(center.y - r);
    &&& border is Some ==> corner_fits
    &&& match shape {
        PointShape::Circle | PointShape::Star | PointShape::Square => corner_fits,
        PointShape::Diamond => true,
        PointShape::Triangle => fits(center.y - h) && fits(center.x - h) && fits(center.y + h)
            && fits(center.x + h),
        PointShape::Cross | PointShape::X => corner_fits && fits(center.x + r) && fits(center.y + r),
    }
}

/// All the arithmetic of `marker_primitives` stays within `i32`.
pub open spec fn marker_fits(
    center: Point,
    size: u32,
    shape: PointShape,
    border: Option<u32>,
    target: Rectangle,
) -> bool {
    &&& cull_fits(center, size, target)
    &&& !marker_culled(center, size, target) ==> shape_fits(center, size, shape, border)
}

fn u32_as_i32(v: u32) -> (r: i32)
    ensures
        r == as_i32(v),
{
    crate::geometry::u32_to_i32(v)
}

/// The drawing primitives of a marker of `size` pixels and `shape` centred at
/// `center`, with a border `border` pixels wide if any, for a drawing target
/// covering `target`.  A marker wholly outside the target, half its size of
/// margin allowed, gives no primitive.
pub fn marker_primitives(
    center: Point,
    size: u32,
    shape: PointShape,
    border: Option<u32>,
    target: Rectangle,
) -> (r: Vec<MarkerPrimitive>)
    requires
        marker_fits(center, size, shape, border, target),
    ensures
        r@ == marker_spec(center, size, shape, border, target),
        r@.len() == 0 <==> marker_culled(center, size, target),
{
    let radius = size / 2;
    let ri: i32 = u32_as_i32(radius);
    let x0 = target.top_left.x;
    let y0 = target.top_left.y;
    if center.x < x0 - ri || center.x >= x0 + u32_as_i32(target.size.width) + ri || center.y < y0
        - ri || center.y >= y0 + u32_as_i32(target.size.height) + ri {
        return Vec::new();
    }
    let mut out: Vec<MarkerPrimitive> = Vec::new();
    match shape {
        PointShape::Circle | PointShape::Star => {
            out.push(
                MarkerPrimitive::FilledCircle {
                    top_left: Point::new(center.x - ri, center.y - ri),
                    diameter: size,
                },
            );
        },
        PointShape::Square => {
            out.push(
                MarkerPrimitive::FilledSquare {
                    top_left: Point::new(center.x - ri, center.y - ri),
                    size,
                },
            );
        },
        PointShape::Diamond => {
            out.push(MarkerPrimitive::FilledDiamond { center, size });
        },
        PointShape::Triangle => {
            let s = u32_as_i32(size);
            let h = s / 2;
            assert(h == half_toward_zero(s as int));
            out.push(
                MarkerPrimitive::FilledTriangle {
                    a: Point::new(center.x, center.y - h),
                    b: Point::new(center.x - h, center.y + h),
                    c: Point::new(center.x + h, center.y + h),
                },
            );
        },
        PointShape::Cross => {
            out.push(
                MarkerPrimitive::Line {
                    start: Point::new(center.x, center.y - ri),
                    end: Point::new(center.x, center.y + ri),
                    width: MARKER_STROKE_WIDTH,
                },
            );
            out.push(
                MarkerPrimitive::Line {
                    start: Point::new(center.x - ri, center.y),
                    end: Point::new(center.x + ri, center.y),
                    width: MARKER_STROKE_WIDTH,
                },
            );
        },
        PointShape::X => {
            out.push(
                MarkerPrimitive::Line {
                    start: Point::new(center.x - ri, center.y - ri),
                    end: Point::new(center.x + ri, center.y + ri),
                    width: MARKER_STROKE_WIDTH,
                },
            );
            out.push(
                MarkerPrimitive::Line {
                    start: Point::new(center.x - ri, center.y + ri),
                    end: Point::new(center.x + ri, center.y - ri),
                    width: MARKER_STROKE_WIDTH,
                },
            );
        },
    }
    assert(out@ == marker_body(center, size, shape));
    match border {
        None => {},
        Some(width) => {
            let corner = Point::new(center.x - ri, center.y - ri);
            if shape == PointShape::Square {
                out.push(MarkerPrimitive::SquareOutline { top_left: corner, size, width });
            } else {
                out.push(MarkerPrimitive::CircleOutline { top_left: corner, diameter: size, width });
            }
        },
    }
    assert(out@ =~= marker_body(center, size, shape) + marker_border(center, size, shape, border));
    out
}


/// Law: a marker that is drawn is its body (one filled shape, or two lines
/// for a cross or an X) followed, when a border width is given, by exactly
/// one outline of that width around the marker's square: a square outline
/// for a square marker, a circle outline for every other shape.  Without a
/// border there is no outline.
pub proof fn law_marker_border(
    center: Point,
    size: u32,
    shape: PointShape,
    border: Option<u32>,
    target: Rectangle,
)
    requires
        !marker_culled(center, size, target),
    ensures
        ({
            let r = marker_spec(center, size, shape, border, target);
            let body_len: int = if shape == PointShape::Cross || shape == PointShape::X {
                2
            } else {
                1
            };
            let corner = pt(center.x - size / 2, center.y - size / 2);
            &&& border is None ==> r.len() == body_len
            &&& border matches Some(w) ==> r.len() == body_len + 1 && (if shape
                == PointShape::Square {
                r.last() == MarkerPrimitive::SquareOutline { top_left: corner, size, width: w }
            } else {
                r.last() == MarkerPrimitive::CircleOutline { top_left: corner, diameter: size, width: w }
            })
        }),
{
}

/// Law: a drawn marker is centred on its point and spans its size.  A
/// filled circle, star or square sits in the square of side `size` whose
/// corner is half the size up and left of the point; a triangle has its apex
/// straight above the point and its base level below it, symmetric about
/// the point; the lines of a cross run vertically and horizontally through
/// the point, and those of an X diagonally, each reaching half the size out
/// on both sides.
pub proof fn law_marker_centred(
    center: Point,
    size: u32,
    shape: PointShape,
    border: Option<u32>,
    target: Rectangle,
)
    requires
        !marker_culled(center, size, target),
        shape_fits(center, size, shape, border),
        size <= i32::MAX,
    ensures
        ({
            let r = marker_spec(center, size, shape, border, target);
            let h = size / 2;
            &&& (shape == PointShape::Circle || shape == PointShape::Star) ==> (r[0] matches MarkerPrimitive::FilledCircle { top_left, diameter } && diameter == size && top_left.x + h == center.x && top_left.y + h == center.y)
            &&& shape == PointShape::Square ==> (r[0] matches MarkerPrimitive::FilledSquare { top_left, size: side } && side == size && top_left.x + h == center.x && top_left.y + h == center.y)
            &&& shape == PointShape::Diamond ==> r[0] == MarkerPrimitive::FilledDiamond { center, size }
            &&& shape == PointShape::Triangle ==> (r[0] matches MarkerPrimitive::FilledTriangle { a, b, c } && a.x == center.x && a.y == center.y - h && b.y == center.y + h && c.y == center.y + h && b.x == center.x - h && c.x == center.x + h)
            &&& shape == PointShape::Cross ==> (r[0] matches MarkerPrimitive::Line { start, end, width } && start.x == center.x && end.x == center.x && start.y == center.y - h && end.y == center.y + h) && (r[1] matches MarkerPrimitive::Line { start, end, width } && start.y == center.y && end.y == center.y && start.x == center.x - h && end.x == center.x + h)
            &&& shape == PointShape::X ==> (r[0] matches MarkerPrimitive::Line { start, end, width } && start.x == center.x - h && start.y == center.y - h && end.x == center.x + h && end.y == center.y + h) && (r[1] matches MarkerPrimitive::Line { start, end, width } && start.x == center.x - h && start.y == center.y + h && end.x == center.x + h && end.y == center.y - h)
        }),
{
}
} // verus!
