//! Axis configuration and tick generation settings.
pub mod linear;
pub mod style;
pub mod ticks;

use vstd::prelude::*;

verus! {

/// Direction of an axis.
#[derive(Debug, Clone, Copy, PartialEq, Eq, Structural)]
pub enum AxisOrientation {
    /// Horizontal (X) axis.
    Horizontal,
    /// Vertical (Y) axis.
    Vertical,
}

/// Where an axis sits relative to the chart area.
#[derive(Debug, Clone, Copy, PartialEq, Eq, Structural)]
pub enum AxisPosition {
    /// Below the chart.
    Bottom,
    /// Above the chart.
    Top,
    /// Left of the chart.
    Left,
    /// Right of the chart.
    Right,
}

/// Settings shared by every axis.
#[derive(Debug, Clone)]
pub struct AxisConfig<T> {
    /// Smallest value on the axis.
    pub min: T,
    /// Largest value on the axis.
    pub max: T,
    /// Direction of the axis.
    pub orientation: AxisOrientation,
    /// Placement of the axis.
    pub position: AxisPosition,
    /// Whether the axis line is drawn.
    pub show_line: bool,
    /// Whether tick marks are drawn.
    pub show_ticks: bool,
    /// Whether labels are drawn.
    pub show_labels: bool,
    /// Whether grid lines are drawn.
    pub show_grid: bool,
}

impl<T: Copy> AxisConfig<T> {
    /// A configuration that shows the line, ticks and labels, but no grid.
    pub fn new(min: T, max: T, orientation: AxisOrientation, position: AxisPosition) -> (r: Self)
        ensures
            r.min == min,
            r.max == max,
            r.orientation == orientation,
            r.position == position,
            r.show_line && r.show_ticks && r.show_labels && !r.show_grid,
    {
        AxisConfig {
            min,
            max,
            orientation,
            position,
            show_line: true,
            show_ticks: true,
            show_labels: true,
            show_grid: false,
        }
    }

    /// The pair (minimum, maximum).
    pub fn range(&self) -> (r: (T, T))
        ensures
            r == (self.min, self.max),
    {
        (self.min, self.max)
    }

    /// Whether the axis is horizontal.
    pub fn is_horizontal(&self) -> (r: bool)
        ensures
            r == (self.orientation == AxisOrientation::Horizontal),
    {
        self.orientation == AxisOrientation::Horizontal
    }

    /// Whether the axis is vertical.
    pub fn is_vertical(&self) -> (r: bool)
        ensures
            r == (self.orientation == AxisOrientation::Vertical),
    {
        self.orientation == AxisOrientation::Vertical
    }
}

} // verus!
