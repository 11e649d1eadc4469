//! Integer layout of the bars of a bar chart.
use crate::geometry::{as_i32, sat_sub, u32_to_i32, Point, Rectangle, Size};
use vstd::prelude::*;

verus! {

/// The direction in which the bars grow.
#[derive(Debug, Clone, Copy, PartialEq, Eq, Structural)]
pub enum BarOrientation {
    /// Bars grow upwards from the bottom of the area.
    Vertical,
    /// Bars grow rightwards from the left of the area.
    Horizontal,
}

/// The narrowest bar that automatic sizing gives, in pixels.
pub const MIN_AUTO_BAR_WIDTH: u32 = 5;

/// The width of each of `count` bars sized automatically: what is left of
/// `available` after the `count - 1` gaps, shared equally, but never less
/// than five pixels.
pub open spec fn auto_bar_width_spec(available: u32, spacing: u32, count: nat) -> int {
    let share = sat_sub(available as int, spacing * (count - 1)) / (count as int);
    if share < MIN_AUTO_BAR_WIDTH {
        MIN_AUTO_BAR_WIDTH as int
    } else {
        share
    }
}

/// The width of each of `count` bars sized automatically.
pub fn auto_bar_width(available: u32, spacing: u32, count: usize) -> (r: u32)
    requires
        0 < count <= u32::MAX,
        spacing * (count - 1) <= u32::MAX,
    ensures
        r == auto_bar_width_spec(available, spacing, count as nat),
{
    let n: u32 = count as u32;
    let gaps: u32 = spacing * (n - 1);
    let share: u32 = available.saturating_sub(gaps) / n;
    if share < MIN_AUTO_BAR_WIDTH {
        MIN_AUTO_BAR_WIDTH
    } else {
        share
    }
}

/// A bar is at least one pixel long, so that it stays visible.
pub open spec fn visible_length(length: u32) -> u32 {
    if length < 1 {
        1
    } else {
        length
    }
}

/// Where bar number `index` starts along the category axis.
pub open spec fn bar_offset(index: int, thickness: u32, spacing: u32) -> int {
    index * (thickness + spacing)
}

/// The rectangle of a bar that starts `offset` pixels along the category
/// axis of `area`, is `thickness` pixels across and `length` pixels long:
/// a vertical bar stands on the bottom edge, a horizontal one on the left.
pub open spec fn bar_rect_spec(
    orientation: BarOrientation,
    area: Rectangle,
    offset: u32,
    thickness: u32,
    length: u32,
) -> Rectangle {
    match orientation {
        BarOrientation::Vertical => Rectangle {
            top_left: Point {
                x: (area.top_left.x + as_i32(offset)) as i32,
                y: (area.top_left.y + as_i32(area.size.height) - as_i32(length)) as i32,
            },
            size: Size { width: thickness, height: length },
        },
        BarOrientation::Horizontal => Rectangle {
            top_left: Point { x: area.top_left.x, y: (area.top_left.y + as_i32(offset)) as i32 },
            size: Size { width: length, height: thickness },
        },
    }
}

/// The coordinates of that bar stay within `i32`.
pub open spec fn bar_rect_fits(
    orientation: BarOrientation,
    area: Rectangle,
    offset: u32,
    length: u32,
) -> bool {
    match orientation {
        BarOrientation::Vertical => {
            &&& i32::MIN <= area.top_left.x + as_i32(offset) <= i32::MAX
            &&& i32::MIN <= area.top_left.y + as_i32(area.size.height) <= i32::MAX
            &&& i32::MIN <= area.top_left.y + as_i32(area.size.height) - as_i32(length) <= i32::MAX
        },
        BarOrientation::Horizontal => i32::MIN <= area.top_left.y + as_i32(offset) <= i32::MAX,
    }
}

/// The layout of `lengths.len()` bars side by side: the offsets advance by
/// `thickness + spacing` per bar, and every length is at least one.
pub open spec fn bars_fit(
    orientation: BarOrientation,
    area: Rectangle,
    thickness: u32,
    spacing: u32,
    lengths: Seq<u32>,
) -> bool {
    &&& lengths.len() * (thickness + spacing) <= u32::MAX
    &&& forall|i: int|
        0 <= i < lengths.len() ==> bar_rect_fits(
            orientation,
            area,
            bar_offset(i, thickness, spacing) as u32,
            visible_length(#[trigger] lengths[i]),
        )
}

/// The rectangle of one bar.
pub fn bar_rect(orientation: BarOrientation, area: Rectangle, offset: u32, thickness: u32, length: u32) -> (r:
    Rectangle)
    requires
        bar_rect_fits(orientation, area, offset, length),
    ensures
        r == bar_rect_spec(orientation, area, offset, thickness, length),
{
    match orientation {
        BarOrientation::Vertical => {
            let x = area.top_left.x + u32_to_i32(offset);
            let bottom = area.top_left.y + u32_to_i32(area.size.height);
            let y = bottom - u32_to_i32(length);
            Rectangle::new(Point::new(x, y), Size::new(thickness, length))
        },
        BarOrientation::Horizontal => {
            let y = area.top_left.y + u32_to_i32(offset);
            Rectangle::new(Point::new(area.top_left.x, y), Size::new(length, thickness))
        },
    }
}

/// Places one bar per entry of `lengths` (the bar's extent in pixels, as
/// scaled from its value) side by side in `area`, in order.
pub fn bar_rects(
    orientation: BarOrientation,
    area: Rectangle,
    thickness: u32,
    spacing: u32,
    lengths: &[u32],
) -> (r: Vec<Rectangle>)
    requires
        bars_fit(orientation, area, thickness, spacing, lengths@),
    ensures
        r@.len() == lengths@.len(),
        forall|i: int|
            0 <= i < r@.len() ==> #[trigger] r@[i] == bar_rect_spec(
                orientation,
                area,
                bar_offset(i, thickness, spacing) as u32,
                thickness,
                visible_length(lengths@[i]),
            ),
{
    let mut out: Vec<Rectangle> = Vec::new();
    let mut position: u32 = 0;
    let mut i: usize = 0;
    while i < lengths.len()
        invariant
            bars_fit(orientation, area, thickness, spacing, lengths@),
            i <= lengths@.len(),
            position == bar_offset(i as int, thickness, spacing),
            out@.len() == i,
            forall|k: int|
                0 <= k < i ==> #[trigger] out@[k] == bar_rect_spec(
                    orientation,
                    area,
                    bar_offset(k, thickness, spacing) as u32,
                    thickness,
                    visible_length(lengths@[k]),
                ),
        decreases lengths@.len() - i,
    {
        let raw = lengths[i];
        let length: u32 = if raw < 1 {
            1
        } else {
            raw
        };
        assert(bar_rect_fits(
            orientation,
            area,
            bar_offset(i as int, thickness, spacing) as u32,
            visible_length(lengths@[i as int]),
        ));
        let rect = bar_rect(orientation, area, position, thickness, length);
        out.push(rect);
        proof {
            let step = thickness + spacing;
            let n = lengths@.len();
            assert((i + 1) * step == i * step + step) by (nonlinear_arith);
            assert((i + 1) * step <= n * step) by (nonlinear_arith)
                requires
                    i + 1 <= n,
                    0 <= step,
            ;
        }
        position = position + (thickness + spacing);
        i = i + 1;
    }
    out
}

/// Law: bars laid out side by side never overlap: each starts only after
/// the one before it has ended.
pub proof fn law_bars_do_not_overlap(thickness: u32, spacing: u32, i: int, j: int)
    requires
        0 <= i < j,
    ensures
        bar_offset(i, thickness, spacing) + thickness <= bar_offset(j, thickness, spacing),
{
    let step = thickness + spacing;
    assert(j * step >= (i + 1) * step) by (nonlinear_arith)
        requires
            i + 1 <= j,
            0 <= step,
    ;
    assert((i + 1) * step == i * step + step) by (nonlinear_arith);
}

/// Law: a vertical bar ends exactly on the bottom edge of the area.
pub proof fn law_vertical_bar_on_baseline(area: Rectangle, offset: u32, thickness: u32, length: u32)
    requires
        bar_rect_fits(BarOrientation::Vertical, area, offset, length),
        length <= i32::MAX,
        area.size.height <= i32::MAX,
    ensures
        ({
            let r = bar_rect_spec(BarOrientation::Vertical, area, offset, thickness, length);
            r.top_left.y + r.size.height == area.top_left.y + area.size.height
        }),
{
}

} // verus!
