//! Chart margins.
use crate::geometry::{as_i32, sat_sub, u32_to_i32, Point, Rectangle, Size};
use vstd::prelude::*;

verus! {

/// Empty space around a chart, in pixels.
#[derive(Debug, Clone, Copy, PartialEq, Eq, Structural)]
pub struct Margins {
    /// Top margin.
    pub top: u32,
    /// Right margin.
    pub right: u32,
    /// Bottom margin.
    pub bottom: u32,
    /// Left margin.
    pub left: u32,
}

impl Margins {
    /// The same margin on every side.
    pub fn all(margin: u32) -> (r: Self)
        ensures
            r == (Margins { top: margin, right: margin, bottom: margin, left: margin }),
    {
        Margins { top: margin, right: margin, bottom: margin, left: margin }
    }

    /// One margin left and right, another top and bottom.
    pub fn symmetric(horizontal: u32, vertical: u32) -> (r: Self)
        ensures
            r == (Margins { top: vertical, right: horizontal, bottom: vertical, left: horizontal }),
    {
        Margins { top: vertical, right: horizontal, bottom: vertical, left: horizontal }
    }

    /// Four margins, clockwise from the top.
    pub fn new(top: u32, right: u32, bottom: u32, left: u32) -> (r: Self)
        ensures
            r == (Margins { top, right, bottom, left }),
    {
        Margins { top, right, bottom, left }
    }

    /// Left plus right.
    pub fn horizontal(&self) -> (r: u32)
        requires
            self.left + self.right <= u32::MAX,
        ensures
            r == self.left + self.right,
    {
        self.left + self.right
    }

    /// Top plus bottom.
    pub fn vertical(&self) -> (r: u32)
        requires
            self.top + self.bottom <= u32::MAX,
        ensures
            r == self.top + self.bottom,
    {
        self.top + self.bottom
    }

    /// The arithmetic of `apply_to` stays within the integer types.
    pub open spec fn fits(self, rect: Rectangle) -> bool {
        &&& self.left + self.right <= u32::MAX
        &&& self.top + self.bottom <= u32::MAX
        &&& i32::MIN <= rect.top_left.x + as_i32(self.left) <= i32::MAX
        &&& i32::MIN <= rect.top_left.y + as_i32(self.top) <= i32::MAX
    }

    /// The area inside `rect` once the margins are taken off; a side shrinks
    /// to zero rather than below.
    pub open spec fn inner(self, rect: Rectangle) -> Rectangle {
        Rectangle {
            top_left: Point {
                x: (rect.top_left.x + as_i32(self.left)) as i32,
                y: (rect.top_left.y + as_i32(self.top)) as i32,
            },
            size: Size {
                width: sat_sub(rect.size.width as int, self.left + self.right) as u32,
                height: sat_sub(rect.size.height as int, self.top + self.bottom) as u32,
            },
        }
    }

    /// The area inside `rect` once the margins are taken off.
    pub fn apply_to(&self, rect: Rectangle) -> (r: Rectangle)
        requires
            self.fits(rect),
        ensures
            r == self.inner(rect),
    {
        let top_left = Point::new(
            rect.top_left.x + u32_to_i32(self.left),
            rect.top_left.y + u32_to_i32(self.top),
        );
        let size = Size::new(
            rect.size.width.saturating_sub(self.horizontal()),
            rect.size.height.saturating_sub(self.vertical()),
        );
        Rectangle::new(top_left, size)
    }
}

impl Default for Margins {
    fn default() -> (r: Self)
        ensures
            r == Margins::all_spec(10),
    {
        Margins::all(10)
    }
}

impl Margins {
    /// The same margin on every side.
    pub open spec fn all_spec(margin: u32) -> Margins {
        Margins { top: margin, right: margin, bottom: margin, left: margin }
    }
}

/// Law: when the margins fit in the rectangle, the inner area starts `left`
/// and `top` pixels in from its corner, and the inner size plus the margins
/// gives back the rectangle's size; when they do not fit, that side is empty.
pub proof fn law_margins_partition(m: Margins, rect: Rectangle)
    requires
        m.fits(rect),
        m.left <= i32::MAX,
        m.top <= i32::MAX,
    ensures
        m.inner(rect).top_left.x == rect.top_left.x + m.left,
        m.inner(rect).top_left.y == rect.top_left.y + m.top,
        m.left + m.right <= rect.size.width ==> m.inner(rect).size.width + m.left + m.right
            == rect.size.width,
        m.left + m.right > rect.size.width ==> m.inner(rect).size.width == 0,
        m.top + m.bottom <= rect.size.height ==> m.inner(rect).size.height + m.top + m.bottom
            == rect.size.height,
        m.top + m.bottom > rect.size.height ==> m.inner(rect).size.height == 0,
{
}

} // verus!
