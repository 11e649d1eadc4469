//! A dashboard that hands out viewports for a grid of panels.
use crate::dashboard::grid::{cells_used, GridLayout, GridPosition};
use crate::dashboard::layout::{grid_cells_fit, grid_viewports, grid_viewports_ok};
use crate::error::ChartResult;
use crate::geometry::Rectangle;
use vstd::prelude::*;

verus! {

/// The most panels a dashboard lays out at once.
pub const MAX_DASHBOARD_CHARTS: usize = 16;

/// A grid of panels with a fixed spacing.
#[derive(Debug, Clone, Copy)]
pub struct SimpleDashboard {
    grid: GridLayout,
    spacing: u32,
}

impl SimpleDashboard {
    /// The grid.
    pub closed spec fn grid_spec(&self) -> GridLayout {
        self.grid
    }

    /// The spacing between panels.
    pub closed spec fn spacing_spec(&self) -> u32 {
        self.spacing
    }

    /// A dashboard of `rows` by `cols` panels (each at least one).
    pub fn new(rows: u8, cols: u8, spacing: u32) -> (r: Self)
        ensures
            r.grid_spec().wf(),
            r.grid_spec().rows == (if rows > 1 {
                rows
            } else {
                1
            }),
            r.grid_spec().cols == (if cols > 1 {
                cols
            } else {
                1
            }),
            r.spacing_spec() == spacing,
    {
        SimpleDashboard { grid: GridLayout::new(rows, cols), spacing }
    }

    /// The viewport of one position.
    pub fn get_viewport(&self, position: GridPosition, total_viewport: Rectangle) -> (r: Rectangle)
        requires
            self.grid_spec().fits(total_viewport, position, self.spacing_spec()),
        ensures
            r == self.grid_spec().cell_viewport(total_viewport, position, self.spacing_spec()),
    {
        self.grid.calculate_cell_viewport(total_viewport, position, self.spacing)
    }

    /// The viewports of the first `panel_count` cells in row-major order;
    /// `MemoryFull` when more than `N` cells would be used.
    pub fn get_all_viewports<const N: usize>(&self, total_viewport: Rectangle, panel_count: usize) -> (r:
        ChartResult<Vec<Rectangle>>)
        requires
            grid_cells_fit(
                self.grid_spec(),
                total_viewport,
                cells_used(panel_count as int, self.grid_spec().rows * self.grid_spec().cols),
                self.spacing_spec(),
            ),
        ensures
            grid_viewports_ok(
                r,
                self.grid_spec(),
                total_viewport,
                panel_count as int,
                self.spacing_spec(),
                N as int,
            ),
    {
        grid_viewports(&self.grid, total_viewport, panel_count, self.spacing, N)
    }
}

} // verus!
