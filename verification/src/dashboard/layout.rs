//! Dashboard layout strategies.
use crate::dashboard::grid::{auto_positions, cells_used, grid_cell, GridLayout, GridPosition};
use crate::dashboard::simple::MAX_DASHBOARD_CHARTS;
use crate::error::{ChartError, ChartResult};
use crate::geometry::Rectangle;
use vstd::prelude::*;

verus! {

/// How the panels of a dashboard are arranged.
#[derive(Debug, Clone, Copy, PartialEq, Eq, Structural)]
pub enum DashboardLayout {
    /// A grid with fixed numbers of rows and columns.
    Grid(GridLayout),
    /// A free arrangement, not available yet.
    Flexible,
}

/// The panels `0..count` of `grid` can all be placed in `total`.
pub open spec fn grid_cells_fit(grid: GridLayout, total: Rectangle, count: int, spacing: u32) -> bool {
    &&& grid.wf()
    &&& forall|i: int|
        0 <= i < count ==> grid.fits(total, #[trigger] grid_cell(grid.cols, i), spacing)
}

/// The viewports of the first `count` cells of `grid`, or `MemoryFull` when
/// more than `limit` cells would be used.
pub open spec fn grid_viewports_ok(
    r: ChartResult<Vec<Rectangle>>,
    grid: GridLayout,
    total: Rectangle,
    count: int,
    spacing: u32,
    limit: int,
) -> bool {
    let used = cells_used(count, grid.rows * grid.cols);
    &&& used > limit ==> r == Err::<Vec<Rectangle>, ChartError>(ChartError::MemoryFull)
    &&& used <= limit ==> (r matches Ok(v) && v@.len() == used && forall|i: int|
        0 <= i < used ==> #[trigger] v@[i] == grid.cell_viewport(
            total,
            grid_cell(grid.cols, i),
            spacing,
        ))
}

/// The viewports of the first `count` cells of `grid`, in row-major order.
pub fn grid_viewports(
    grid: &GridLayout,
    total_viewport: Rectangle,
    panel_count: usize,
    spacing: u32,
    limit: usize,
) -> (r: ChartResult<Vec<Rectangle>>)
    requires
        grid_cells_fit(*grid, total_viewport, cells_used(panel_count as int, grid.rows * grid.cols), spacing),
    ensures
        grid_viewports_ok(r, *grid, total_viewport, panel_count as int, spacing, limit as int),
{
    let positions = match auto_positions(grid, panel_count, limit) {
        Ok(p) => p,
        Err(e) => {
            return Err(e);
        },
    };
    let mut viewports: Vec<Rectangle> = Vec::new();
    let mut i: usize = 0;
    while i < positions.len()
        invariant
            0 <= i <= positions@.len(),
            positions@.len() == cells_used(panel_count as int, grid.rows * grid.cols),
            forall|k: int| 0 <= k < positions@.len() ==> #[trigger] positions@[k] == grid_cell(grid.cols, k),
            grid_cells_fit(*grid, total_viewport, positions@.len() as int, spacing),
            viewports@.len() == i,
            forall|k: int|
                0 <= k < i ==> #[trigger] viewports@[k] == grid.cell_viewport(
                    total_viewport,
                    grid_cell(grid.cols, k),
                    spacing,
                ),
        decreases positions@.len() - i,
    {
        assert(grid.fits(total_viewport, grid_cell(grid.cols, i as int), spacing));
        let v = grid.calculate_cell_viewport(total_viewport, positions[i], spacing);
        viewports.push(v);
        i = i + 1;
    }
    Ok(viewports)
}

impl DashboardLayout {
    /// The viewports of `panel_count` panels in `total_viewport`: row-major
    /// cells of the grid, at most 16; the flexible layout is refused with
    /// `ConfigurationError`.
    pub fn calculate_viewports(&self, total_viewport: Rectangle, panel_count: usize, spacing: u32) -> (r:
        ChartResult<Vec<Rectangle>>)
        requires
            *self matches DashboardLayout::Grid(g) ==> grid_cells_fit(
                g,
                total_viewport,
                cells_used(panel_count as int, g.rows * g.cols),
                spacing,
            ),
        ensures
            *self == DashboardLayout::Flexible ==> r == Err::<Vec<Rectangle>, ChartError>(
                ChartError::ConfigurationError,
            ),
            *self matches DashboardLayout::Grid(g) ==> grid_viewports_ok(
                r,
                g,
                total_viewport,
                panel_count as int,
                spacing,
                MAX_DASHBOARD_CHARTS as int,
            ),
    {
        match self {
            DashboardLayout::Grid(grid) => grid_viewports(
                grid,
                total_viewport,
                panel_count,
                spacing,
                MAX_DASHBOARD_CHARTS,
            ),
            DashboardLayout::Flexible => Err(ChartError::ConfigurationError),
        }
    }
}

/// Ready-made dashboard arrangements.
#[derive(Debug, Clone, Copy, PartialEq, Eq, Structural)]
pub enum LayoutPreset {
    /// One chart.
    Single,
    /// Two charts side by side.
    SideBySide,
    /// Two charts, one above the other.
    Stacked,
    /// Four charts in two rows of two.
    Quadrants,
    /// Three charts side by side.
    ThreeColumns,
    /// Three charts, one above the other.
    ThreeRows,
    /// Nine charts in a three by three grid.
    Grid3x3,
    /// Sixteen charts in a four by four grid.
    Grid4x4,
}

impl LayoutPreset {
    /// The grid (rows, columns) of this preset.
    pub open spec fn grid_dims(self) -> (u8, u8) {
        match self {
            LayoutPreset::Single => (1, 1),
            LayoutPreset::SideBySide => (1, 2),
            LayoutPreset::Stacked => (2, 1),
            LayoutPreset::Quadrants => (2, 2),
            LayoutPreset::ThreeColumns => (1, 3),
            LayoutPreset::ThreeRows => (3, 1),
            LayoutPreset::Grid3x3 => (3, 3),
            LayoutPreset::Grid4x4 => (4, 4),
        }
    }

    /// The layout of this preset.
    pub fn to_layout(self) -> (r: DashboardLayout)
        ensures
            r == DashboardLayout::Grid(GridLayout { rows: self.grid_dims().0, cols: self.grid_dims().1 }),
    {
        match self {
            LayoutPreset::Single => DashboardLayout::Grid(GridLayout::new(1, 1)),
            LayoutPreset::SideBySide => DashboardLayout::Grid(GridLayout::new(1, 2)),
            LayoutPreset::Stacked => DashboardLayout::Grid(GridLayout::new(2, 1)),
            LayoutPreset::Quadrants => DashboardLayout::Grid(GridLayout::new(2, 2)),
            LayoutPreset::ThreeColumns => DashboardLayout::Grid(GridLayout::new(1, 3)),
            LayoutPreset::ThreeRows => DashboardLayout::Grid(GridLayout::new(3, 1)),
            LayoutPreset::Grid3x3 => DashboardLayout::Grid(GridLayout::new(3, 3)),
            LayoutPreset::Grid4x4 => DashboardLayout::Grid(GridLayout::new(4, 4)),
        }
    }
}


/// The number of charts a preset is meant for.
pub open spec fn preset_panels(p: LayoutPreset) -> int {
    match p {
        LayoutPreset::Single => 1,
        LayoutPreset::SideBySide | LayoutPreset::Stacked => 2,
        LayoutPreset::ThreeColumns | LayoutPreset::ThreeRows => 3,
        LayoutPreset::Quadrants => 4,
        LayoutPreset::Grid3x3 => 9,
        LayoutPreset::Grid4x4 => 16,
    }
}

/// Law: every preset's grid has one cell per chart it is meant for and is
/// shaped as its name says: side-by-side presets are a single row with one
/// column per chart, stacked presets a single column with one row per chart,
/// and the others are square.
pub proof fn law_preset_shapes(p: LayoutPreset)
    ensures
        ({
            let rows = p.grid_dims().0 as int;
            let cols = p.grid_dims().1 as int;
            &&& rows * cols == preset_panels(p)
            &&& (p == LayoutPreset::SideBySide || p == LayoutPreset::ThreeColumns) ==> rows == 1
                && cols == preset_panels(p)
            &&& (p == LayoutPreset::Stacked || p == LayoutPreset::ThreeRows) ==> cols == 1 && rows
                == preset_panels(p)
            &&& (p == LayoutPreset::Single || p == LayoutPreset::Quadrants || p
                == LayoutPreset::Grid3x3 || p == LayoutPreset::Grid4x4) ==> rows == cols
        }),
{
}
} // verus!
