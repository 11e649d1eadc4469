//! Screen geometry of an axis: where its line, ticks, labels and grid lines go.
use crate::axes::{AxisConfig, AxisOrientation, AxisPosition};
use crate::geometry::{as_i32, u32_to_i32, Point, Rectangle};
use vstd::prelude::*;

verus! {

/// The last pixel column of `v`, `x + width - 1`.
pub open spec fn right_edge(v: Rectangle) -> int {
    v.top_left.x + as_i32(v.size.width) - 1
}

/// The last pixel row of `v`, `y + height - 1`.
pub open spec fn bottom_edge(v: Rectangle) -> int {
    v.top_left.y + as_i32(v.size.height) - 1
}

/// The edges of `v` can be computed without overflow.
pub open spec fn edges_fit(v: Rectangle) -> bool {
    &&& i32::MIN <= v.top_left.x + as_i32(v.size.width) <= i32::MAX
    &&& i32::MIN <= right_edge(v) <= i32::MAX
    &&& i32::MIN <= v.top_left.y + as_i32(v.size.height) <= i32::MAX
    &&& i32::MIN <= bottom_edge(v) <= i32::MAX
}

fn right_edge_of(v: Rectangle) -> (r: i32)
    requires
        edges_fit(v),
    ensures
        r == right_edge(v),
{
    v.top_left.x + u32_to_i32(v.size.width) - 1
}

fn bottom_edge_of(v: Rectangle) -> (r: i32)
    requires
        edges_fit(v),
    ensures
        r == bottom_edge(v),
{
    v.top_left.y + u32_to_i32(v.size.height) - 1
}

/// Which side of the viewport an axis is drawn on; an orientation and a
/// position that do not match fall back to the bottom (horizontal) or the
/// left (vertical).
#[derive(Debug, Clone, Copy, PartialEq, Eq, Structural)]
pub enum AxisSide {
    /// Along the bottom edge.
    Bottom,
    /// Along the top edge.
    Top,
    /// Along the left edge.
    Left,
    /// Along the right edge.
    Right,
}

/// The side an axis with this orientation and position is drawn on.
pub open spec fn side_of(orientation: AxisOrientation, position: AxisPosition) -> AxisSide {
    match orientation {
        AxisOrientation::Horizontal => if position == AxisPosition::Top {
            AxisSide::Top
        } else {
            AxisSide::Bottom
        },
        AxisOrientation::Vertical => if position == AxisPosition::Right {
            AxisSide::Right
        } else {
            AxisSide::Left
        },
    }
}

/// The sizes an axis needs room for.
#[derive(Debug, Clone, Copy, PartialEq, Eq, Structural)]
pub struct AxisSpace {
    /// Width of the axis line.
    pub line_width: u32,
    /// Whether major ticks are drawn.
    pub major_ticks_visible: bool,
    /// Length of major ticks.
    pub major_tick_length: u32,
    /// Whether minor ticks are drawn.
    pub minor_ticks_visible: bool,
    /// Length of minor ticks.
    pub minor_tick_length: u32,
    /// Whether labels are drawn.
    pub labels_visible: bool,
    /// Distance from a tick to its label.
    pub label_offset: u32,
    /// Font size of the labels.
    pub font_size: u32,
}

impl<T: Copy> AxisConfig<T> {
    /// The side this axis is drawn on.
    pub open spec fn side(&self) -> AxisSide {
        side_of(self.orientation, self.position)
    }

    /// The side this axis is drawn on.
    pub fn axis_side(&self) -> (r: AxisSide)
        ensures
            r == self.side(),
    {
        match self.orientation {
            AxisOrientation::Horizontal => if self.position == AxisPosition::Top {
                AxisSide::Top
            } else {
                AxisSide::Bottom
            },
            AxisOrientation::Vertical => if self.position == AxisPosition::Right {
                AxisSide::Right
            } else {
                AxisSide::Left
            },
        }
    }

    /// The end points of the axis line: the edge of the viewport on the
    /// axis's side, from its first to its last pixel.
    pub open spec fn axis_line_spec(&self, viewport: Rectangle) -> (Point, Point) {
        let x = viewport.top_left.x;
        let y = viewport.top_left.y;
        match self.side() {
            AxisSide::Bottom => (
                Point { x, y: bottom_edge(viewport) as i32 },
                Point { x: right_edge(viewport) as i32, y: bottom_edge(viewport) as i32 },
            ),
            AxisSide::Top => (Point { x, y }, Point { x: right_edge(viewport) as i32, y }),
            AxisSide::Left => (Point { x, y }, Point { x, y: bottom_edge(viewport) as i32 }),
            AxisSide::Right => (
                Point { x: right_edge(viewport) as i32, y },
                Point { x: right_edge(viewport) as i32, y: bottom_edge(viewport) as i32 },
            ),
        }
    }

    /// The end points of the axis line in `viewport`.
    pub fn calculate_axis_line(&self, viewport: Rectangle) -> (r: (Point, Point))
        requires
            edges_fit(viewport),
        ensures
            r == self.axis_line_spec(viewport),
    {
        let x = viewport.top_left.x;
        let y = viewport.top_left.y;
        match self.axis_side() {
            AxisSide::Bottom => {
                let bottom = bottom_edge_of(viewport);
                (Point::new(x, bottom), Point::new(right_edge_of(viewport), bottom))
            },
            AxisSide::Top => (Point::new(x, y), Point::new(right_edge_of(viewport), y)),
            AxisSide::Left => (Point::new(x, y), Point::new(x, bottom_edge_of(viewport))),
            AxisSide::Right => {
                let right = right_edge_of(viewport);
                (Point::new(right, y), Point::new(right, bottom_edge_of(viewport)))
            },
        }
    }

    /// Where the tick for screen coordinate `screen_coord` sits: on the axis
    /// line, at that coordinate along it.
    pub open spec fn tick_position_spec(&self, screen_coord: i32, viewport: Rectangle) -> Point {
        match self.side() {
            AxisSide::Bottom => Point { x: screen_coord, y: bottom_edge(viewport) as i32 },
            AxisSide::Top => Point { x: screen_coord, y: viewport.top_left.y },
            AxisSide::Left => Point { x: viewport.top_left.x, y: screen_coord },
            AxisSide::Right => Point { x: right_edge(viewport) as i32, y: screen_coord },
        }
    }

    /// The position of the tick at screen coordinate `screen_coord`.
    pub fn calculate_tick_position(&self, screen_coord: i32, viewport: Rectangle) -> (r: Point)
        requires
            edges_fit(viewport),
        ensures
            r == self.tick_position_spec(screen_coord, viewport),
    {
        match self.axis_side() {
            AxisSide::Bottom => Point::new(screen_coord, bottom_edge_of(viewport)),
            AxisSide::Top => Point::new(screen_coord, viewport.top_left.y),
            AxisSide::Left => Point::new(viewport.top_left.x, screen_coord),
            AxisSide::Right => Point::new(right_edge_of(viewport), screen_coord),
        }
    }

    /// The grid line through a tick: across the whole chart area, vertical
    /// for a horizontal axis and horizontal for a vertical one.
    pub open spec fn grid_line_spec(&self, tick: Point, chart_area: Rectangle) -> (Point, Point) {
        match self.orientation {
            AxisOrientation::Horizontal => (
                Point { x: tick.x, y: chart_area.top_left.y },
                Point { x: tick.x, y: bottom_edge(chart_area) as i32 },
            ),
            AxisOrientation::Vertical => (
                Point { x: chart_area.top_left.x, y: tick.y },
                Point { x: right_edge(chart_area) as i32, y: tick.y },
            ),
        }
    }

    /// The grid line for the tick at screen coordinate `screen_coord`.
    pub fn calculate_grid_line(&self, screen_coord: i32, viewport: Rectangle, chart_area: Rectangle) -> (r: (
        Point,
        Point,
    ))
        requires
            edges_fit(viewport),
            edges_fit(chart_area),
        ensures
            r == self.grid_line_spec(self.tick_position_spec(screen_coord, viewport), chart_area),
    {
        let tick = self.calculate_tick_position(screen_coord, viewport);
        match self.orientation {
            AxisOrientation::Horizontal => (
                Point::new(tick.x, chart_area.top_left.y),
                Point::new(tick.x, bottom_edge_of(chart_area)),
            ),
            AxisOrientation::Vertical => (
                Point::new(chart_area.top_left.x, tick.y),
                Point::new(right_edge_of(chart_area), tick.y),
            ),
        }
    }

    /// Where the label of a tick goes: `label_offset` pixels away from the
    /// chart, on the axis's side.
    pub open spec fn label_position_spec(&self, tick: Point, label_offset: u32) -> Point {
        let d = as_i32(label_offset);
        match self.side() {
            AxisSide::Bottom => Point { x: tick.x, y: (tick.y + d) as i32 },
            AxisSide::Top => Point { x: tick.x, y: (tick.y - d) as i32 },
            AxisSide::Left => Point { x: (tick.x - d) as i32, y: tick.y },
            AxisSide::Right => Point { x: (tick.x + d) as i32, y: tick.y },
        }
    }

    /// The arithmetic of the label position stays within `i32`.
    pub open spec fn label_fits(&self, tick: Point, label_offset: u32) -> bool {
        let d = as_i32(label_offset);
        &&& i32::MIN <= tick.x + d <= i32::MAX
        &&& i32::MIN <= tick.x - d <= i32::MAX
        &&& i32::MIN <= tick.y + d <= i32::MAX
        &&& i32::MIN <= tick.y - d <= i32::MAX
    }

    /// The position of the label of the tick at `tick`.
    pub fn calculate_label_position(&self, tick: Point, label_offset: u32) -> (r: Point)
        requires
            self.label_fits(tick, label_offset),
        ensures
            r == self.label_position_spec(tick, label_offset),
    {
        let d = u32_to_i32(label_offset);
        match self.axis_side() {
            AxisSide::Bottom => Point::new(tick.x, tick.y + d),
            AxisSide::Top => Point::new(tick.x, tick.y - d),
            AxisSide::Left => Point::new(tick.x - d, tick.y),
            AxisSide::Right => Point::new(tick.x + d, tick.y),
        }
    }

    /// The room the axis needs beside the chart: the line width if the line
    /// is shown, the longer visible tick if ticks are shown, and the label
    /// offset plus font size if labels are shown.
    pub open spec fn required_space_spec(&self, space: AxisSpace) -> int {
        (if self.show_line {
            space.line_width as int
        } else {
            0
        }) + (if self.show_ticks {
            let major = if space.major_ticks_visible {
                space.major_tick_length as int
            } else {
                0
            };
            let minor = if space.minor_ticks_visible {
                space.minor_tick_length as int
            } else {
                0
            };
            if major > minor {
                major
            } else {
                minor
            }
        } else {
            0
        }) + (if self.show_labels && space.labels_visible {
            space.label_offset + space.font_size
        } else {
            0
        })
    }

    /// The room the axis needs beside the chart.
    pub fn required_space(&self, space: &AxisSpace) -> (r: u32)
        requires
            self.required_space_spec(*space) <= u32::MAX,
            self.show_labels && space.labels_visible ==> space.label_offset + space.font_size
                <= u32::MAX,
        ensures
            r == self.required_space_spec(*space),
    {
        let mut total: u32 = 0;
        if self.show_line {
            total = space.line_width;
        }
        if self.show_ticks {
            let major = if space.major_ticks_visible {
                space.major_tick_length
            } else {
                0
            };
            let minor = if space.minor_ticks_visible {
                space.minor_tick_length
            } else {
                0
            };
            total = total + if major > minor {
                major
            } else {
                minor
            };
        }
        if self.show_labels && space.labels_visible {
            total = total + (space.label_offset + space.font_size);
        }
        total
    }
}


/// The tick mark drawn at `position`: `length` pixels down from a
/// horizontal axis, `length` pixels left from a vertical one.
pub open spec fn tick_mark_spec(position: Point, length: u32, orientation: AxisOrientation) -> (Point, Point) {
    match orientation {
        AxisOrientation::Horizontal => (position, Point { x: position.x, y: (position.y + as_i32(length)) as i32 }),
        AxisOrientation::Vertical => (position, Point { x: (position.x - as_i32(length)) as i32, y: position.y }),
    }
}

/// The end of the tick mark stays within `i32`.
pub open spec fn tick_mark_fits(position: Point, length: u32, orientation: AxisOrientation) -> bool {
    match orientation {
        AxisOrientation::Horizontal => i32::MIN <= position.y + as_i32(length) <= i32::MAX,
        AxisOrientation::Vertical => i32::MIN <= position.x - as_i32(length) <= i32::MAX,
    }
}

/// The two ends of the tick mark drawn at `position`.
pub fn tick_mark(position: Point, length: u32, orientation: AxisOrientation) -> (r: (Point, Point))
    requires
        tick_mark_fits(position, length, orientation),
    ensures
        r == tick_mark_spec(position, length, orientation),
{
    match orientation {
        AxisOrientation::Horizontal => (position, Point::new(position.x, position.y + u32_to_i32(length))),
        AxisOrientation::Vertical => (position, Point::new(position.x - u32_to_i32(length), position.y)),
    }
}


/// Law: a label never goes on the chart's side of its tick.  It is moved by
/// exactly the label offset, away from the chart: left of the tick on a left
/// axis, right of it on a right axis, below it on a bottom axis and above it
/// on a top axis, and it stays level with the tick along the axis.
pub proof fn law_label_away_from_chart<T: Copy>(axis: AxisConfig<T>, tick: Point, label_offset: u32)
    requires
        label_offset <= i32::MAX,
        axis.label_fits(tick, label_offset),
    ensures
        ({
            let l = axis.label_position_spec(tick, label_offset);
            let vertical = axis.orientation == AxisOrientation::Vertical;
            &&& vertical && axis.position != AxisPosition::Right ==> l.x == tick.x - label_offset
                && l.y == tick.y && l.x <= tick.x
            &&& vertical && axis.position == AxisPosition::Right ==> l.x == tick.x + label_offset
                && l.y == tick.y && l.x >= tick.x
            &&& !vertical && axis.position != AxisPosition::Top ==> l.y == tick.y + label_offset
                && l.x == tick.x && l.y >= tick.y
            &&& !vertical && axis.position == AxisPosition::Top ==> l.y == tick.y - label_offset
                && l.x == tick.x && l.y <= tick.y
        }),
{
}

/// Law: the room an axis needs is what its line, its longest visible tick
/// and its visible labels need, added up.  Hidden labels (or labels turned
/// off) need no room at all: the result then does not depend on the label
/// offset or the font size; shown labels add exactly offset plus font size.
pub proof fn law_required_space_parts<T: Copy>(axis: AxisConfig<T>, space: AxisSpace)
    ensures
        ({
            let no_labels = AxisSpace { labels_visible: false, label_offset: 0, font_size: 0, ..space };
            let line = if axis.show_line {
                space.line_width as int
            } else {
                0
            };
            let major = if axis.show_ticks && space.major_ticks_visible {
                space.major_tick_length as int
            } else {
                0
            };
            let minor = if axis.show_ticks && space.minor_ticks_visible {
                space.minor_tick_length as int
            } else {
                0
            };
            &&& axis.required_space_spec(no_labels) == line + (if major > minor {
                major
            } else {
                minor
            })
            &&& !(axis.show_labels && space.labels_visible) ==> axis.required_space_spec(space)
                == axis.required_space_spec(no_labels)
            &&& axis.show_labels && space.labels_visible ==> axis.required_space_spec(space)
                == axis.required_space_spec(no_labels) + space.label_offset + space.font_size
        }),
{
}
} // verus!
