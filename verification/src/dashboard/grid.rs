//! Grid layout for dashboards.
use crate::error::{ChartError, ChartResult};
use crate::geometry::{as_i32, sat_sub, u32_to_i32, Point, Rectangle, Size};
use vstd::prelude::*;

verus! {

/// A cell, or a block of cells, in a grid.
#[derive(Debug, Clone, Copy, PartialEq, Eq, Structural)]
pub struct GridPosition {
    /// Row index, from 0.
    pub row: u8,
    /// Column index, from 0.
    pub col: u8,
    /// Number of rows covered.
    pub row_span: u8,
    /// Number of columns covered.
    pub col_span: u8,
}

impl GridPosition {
    /// A single cell.
    pub fn new(row: u8, col: u8) -> (r: Self)
        ensures
            r == (GridPosition { row, col, row_span: 1, col_span: 1 }),
    {
        GridPosition { row, col, row_span: 1, col_span: 1 }
    }

    /// A block of cells; a span of zero counts as one.
    pub fn with_span(row: u8, col: u8, row_span: u8, col_span: u8) -> (r: Self)
        ensures
            r == (GridPosition {
                row,
                col,
                row_span: if row_span > 1 {
                    row_span
                } else {
                    1
                },
                col_span: if col_span > 1 {
                    col_span
                } else {
                    1
                },
            }),
    {
        GridPosition {
            row,
            col,
            row_span: if row_span > 1 {
                row_span
            } else {
                1
            },
            col_span: if col_span > 1 {
                col_span
            } else {
                1
            },
        }
    }
}

/// A grid of equally sized cells separated by a fixed spacing.
#[derive(Debug, Clone, Copy, PartialEq, Eq, Structural)]
pub struct GridLayout {
    /// Number of rows.
    pub rows: u8,
    /// Number of columns.
    pub cols: u8,
}

impl GridLayout {
    /// At least one row and one column.
    pub open spec fn wf(self) -> bool {
        self.rows >= 1 && self.cols >= 1
    }

    /// Width of one cell.
    pub open spec fn cell_width(self, total: Rectangle, spacing: u32) -> int {
        sat_sub(total.size.width as int, spacing * (self.cols - 1)) / (self.cols as int)
    }

    /// Height of one cell.
    pub open spec fn cell_height(self, total: Rectangle, spacing: u32) -> int {
        sat_sub(total.size.height as int, spacing * (self.rows - 1)) / (self.rows as int)
    }

    /// Horizontal distance from one column to the next.
    pub open spec fn col_pitch(self, total: Rectangle, spacing: u32) -> int {
        as_i32(self.cell_width(total, spacing) as u32) + as_i32(spacing)
    }

    /// Vertical distance from one row to the next.
    pub open spec fn row_pitch(self, total: Rectangle, spacing: u32) -> int {
        as_i32(self.cell_height(total, spacing) as u32) + as_i32(spacing)
    }

    /// Every intermediate value of `calculate_cell_viewport` fits its type.
    pub open spec fn fits(self, total: Rectangle, position: GridPosition, spacing: u32) -> bool {
        &&& self.wf()
        &&& spacing * (self.cols - 1) <= u32::MAX
        &&& spacing * (self.rows - 1) <= u32::MAX
        &&& i32::MIN <= self.col_pitch(total, spacing) <= i32::MAX
        &&& i32::MIN <= self.row_pitch(total, spacing) <= i32::MAX
        &&& i32::MIN <= position.col * self.col_pitch(total, spacing) <= i32::MAX
        &&& i32::MIN <= position.row * self.row_pitch(total, spacing) <= i32::MAX
        &&& i32::MIN <= total.top_left.x + position.col * self.col_pitch(total, spacing) <= i32::MAX
        &&& i32::MIN <= total.top_left.y + position.row * self.row_pitch(total, spacing) <= i32::MAX
        &&& self.cell_width(total, spacing) * position.col_span <= u32::MAX
        &&& spacing * sat_sub(position.col_span as int, 1) <= u32::MAX
        &&& self.cell_width(total, spacing) * position.col_span + spacing * sat_sub(
            position.col_span as int,
            1,
        ) <= u32::MAX
        &&& self.cell_height(total, spacing) * position.row_span <= u32::MAX
        &&& spacing * sat_sub(position.row_span as int, 1) <= u32::MAX
        &&& self.cell_height(total, spacing) * position.row_span + spacing * sat_sub(
            position.row_span as int,
            1,
        ) <= u32::MAX
    }

    /// The rectangle of `position` inside `total`.
    pub open spec fn cell_viewport(self, total: Rectangle, position: GridPosition, spacing: u32) -> Rectangle {
        Rectangle {
            top_left: Point {
                x: (total.top_left.x + position.col * self.col_pitch(total, spacing)) as i32,
                y: (total.top_left.y + position.row * self.row_pitch(total, spacing)) as i32,
            },
            size: Size {
                width: (self.cell_width(total, spacing) * position.col_span + spacing * sat_sub(
                    position.col_span as int,
                    1,
                )) as u32,
                height: (self.cell_height(total, spacing) * position.row_span + spacing * sat_sub(
                    position.row_span as int,
                    1,
                )) as u32,
            },
        }
    }

    /// A grid with the given numbers of rows and columns, each at least one.
    pub fn new(rows: u8, cols: u8) -> (r: Self)
        ensures
            r.wf(),
            r.rows == (if rows > 1 {
                rows
            } else {
                1
            }),
            r.cols == (if cols > 1 {
                cols
            } else {
                1
            }),
    {
        GridLayout {
            rows: if rows > 1 {
                rows
            } else {
                1
            },
            cols: if cols > 1 {
                cols
            } else {
                1
            },
        }
    }

    /// The rectangle of `position` inside `total`: the total size less the
    /// spacings is shared equally between the cells.
    pub fn calculate_cell_viewport(&self, total_viewport: Rectangle, position: GridPosition, spacing: u32) -> (r: Rectangle)
        requires
            self.fits(total_viewport, position, spacing),
        ensures
            r == self.cell_viewport(total_viewport, position, spacing),
    {
        let total_width = total_viewport.size.width;
        let total_height = total_viewport.size.height;
        let h_spacing = spacing * (self.cols as u32 - 1);
        let v_spacing = spacing * (self.rows as u32 - 1);
        let cell_width = total_width.saturating_sub(h_spacing) / self.cols as u32;
        let cell_height = total_height.saturating_sub(v_spacing) / self.rows as u32;
        let col_pitch = u32_to_i32(cell_width) + u32_to_i32(spacing);
        let row_pitch = u32_to_i32(cell_height) + u32_to_i32(spacing);
        let x = total_viewport.top_left.x + (position.col as i32 * col_pitch);
        let y = total_viewport.top_left.y + (position.row as i32 * row_pitch);
        let col_extra: u8 = if position.col_span > 1 {
            position.col_span - 1
        } else {
            0
        };
        let row_extra: u8 = if position.row_span > 1 {
            position.row_span - 1
        } else {
            0
        };
        let width = (cell_width * position.col_span as u32) + (spacing * col_extra as u32);
        let height = (cell_height * position.row_span as u32) + (spacing * row_extra as u32);
        Rectangle::new(Point::new(x, y), Size::new(width, height))
    }

    /// The rectangles of all positions, in order; `MemoryFull` when there
    /// are more than `N`.
    pub fn calculate_viewports<const N: usize>(
        &self,
        total_viewport: Rectangle,
        positions: &[GridPosition],
        spacing: u32,
    ) -> (r: ChartResult<Vec<Rectangle>>)
        requires
            forall|i: int|
                0 <= i < positions@.len() && i <= N ==> self.fits(
                    total_viewport,
                    #[trigger] positions@[i],
                    spacing,
                ),
        ensures
            positions@.len() > N ==> r == Err::<Vec<Rectangle>, ChartError>(ChartError::MemoryFull),
            positions@.len() <= N ==> (r matches Ok(v) && v@.len() == positions@.len() && forall|
                i: int,
            |
                0 <= i < positions@.len() ==> #[trigger] v@[i] == self.cell_viewport(
                    total_viewport,
                    positions@[i],
                    spacing,
                )),
    {
        let mut viewports: Vec<Rectangle> = Vec::new();
        let mut i: usize = 0;
        while i < positions.len()
            invariant
                0 <= i <= positions@.len(),
                i <= N,
                viewports@.len() == i,
                forall|k: int|
                    0 <= k < positions@.len() && k <= N ==> self.fits(
                        total_viewport,
                        #[trigger] positions@[k],
                        spacing,
                    ),
                forall|k: int|
                    0 <= k < i ==> #[trigger] viewports@[k] == self.cell_viewport(
                        total_viewport,
                        positions@[k],
                        spacing,
                    ),
            decreases positions@.len() - i,
        {
            let viewport = self.calculate_cell_viewport(total_viewport, positions[i], spacing);
            if viewports.len() >= N {
                return Err(ChartError::MemoryFull);
            }
            viewports.push(viewport);
            i = i + 1;
        }
        Ok(viewports)
    }
}

/// Law: a block of cells that stays inside the grid gets a viewport inside
/// the total viewport, as long as the spacings leave room for the cells.
pub proof fn law_cell_inside_total(g: GridLayout, total: Rectangle, p: GridPosition, spacing: u32)
    requires
        g.fits(total, p, spacing),
        p.col_span >= 1,
        p.row_span >= 1,
        p.col + p.col_span <= g.cols,
        p.row + p.row_span <= g.rows,
        spacing * (g.cols - 1) <= total.size.width,
        spacing * (g.rows - 1) <= total.size.height,
        spacing <= i32::MAX,
        g.cell_width(total, spacing) <= i32::MAX,
        g.cell_height(total, spacing) <= i32::MAX,
    ensures
        g.cell_viewport(total, p, spacing).top_left.x >= total.top_left.x,
        g.cell_viewport(total, p, spacing).top_left.x + g.cell_viewport(total, p, spacing).size.width
            <= total.top_left.x + total.size.width,
        g.cell_viewport(total, p, spacing).top_left.y >= total.top_left.y,
        g.cell_viewport(total, p, spacing).top_left.y + g.cell_viewport(total, p, spacing).size.height
            <= total.top_left.y + total.size.height,
{
    let cw = g.cell_width(total, spacing);
    let ch = g.cell_height(total, spacing);
    let s = spacing as int;
    let cols = g.cols as int;
    let rows = g.rows as int;
    let avail_w = total.size.width - s * (cols - 1);
    let avail_h = total.size.height - s * (rows - 1);
    assert(cw * cols <= avail_w) by (nonlinear_arith)
        requires
            cw == avail_w / cols,
            cols >= 1,
            avail_w >= 0,
    ;
    assert(ch * rows <= avail_h) by (nonlinear_arith)
        requires
            ch == avail_h / rows,
            rows >= 1,
            avail_h >= 0,
    ;
    let c = p.col as int;
    let cs = p.col_span as int;
    let r = p.row as int;
    let rs = p.row_span as int;
    assert(0 <= c * (cw + s)) by (nonlinear_arith)
        requires
            c >= 0,
            cw >= 0,
            s >= 0,
    ;
    assert(c * (cw + s) + cw * cs + s * (cs - 1) <= cw * cols + s * (cols - 1)) by (nonlinear_arith)
        requires
            c >= 0,
            cs >= 1,
            c + cs <= cols,
            cw >= 0,
            s >= 0,
    ;
    assert(0 <= r * (ch + s)) by (nonlinear_arith)
        requires
            r >= 0,
            ch >= 0,
            s >= 0,
    ;
    assert(r * (ch + s) + ch * rs + s * (rs - 1) <= ch * rows + s * (rows - 1)) by (nonlinear_arith)
        requires
            r >= 0,
            rs >= 1,
            r + rs <= rows,
            ch >= 0,
            s >= 0,
    ;
}

/// Law: a block of cells that ends before another block's first column gets
/// a viewport that ends, horizontally, at or before the other one starts;
/// blocks in separate columns never overlap.
pub proof fn law_cells_left_of(
    g: GridLayout,
    total: Rectangle,
    left: GridPosition,
    right: GridPosition,
    spacing: u32,
)
    requires
        g.fits(total, left, spacing),
        g.fits(total, right, spacing),
        left.col_span >= 1,
        left.col + left.col_span <= right.col,
        spacing <= i32::MAX,
        g.cell_width(total, spacing) <= i32::MAX,
    ensures
        g.cell_viewport(total, left, spacing).top_left.x + g.cell_viewport(total, left, spacing).size.width
            <= g.cell_viewport(total, right, spacing).top_left.x,
{
    let cw = g.cell_width(total, spacing);
    let s = spacing as int;
    let c1 = left.col as int;
    let cs = left.col_span as int;
    let c2 = right.col as int;
    assert(c1 * (cw + s) + cw * cs + s * (cs - 1) <= c2 * (cw + s)) by (nonlinear_arith)
        requires
            c1 >= 0,
            cs >= 1,
            c1 + cs <= c2,
            cw >= 0,
            s >= 0,
    ;
}

impl Default for GridLayout {
    fn default() -> (r: Self)
        ensures
            r == (GridLayout { rows: 2, cols: 2 }),
    {
        GridLayout::new(2, 2)
    }
}

/// The cell at row-major index `i` in a grid with `cols` columns.
pub open spec fn grid_cell(cols: u8, i: int) -> GridPosition {
    GridPosition { row: (i / cols as int) as u8, col: (i % cols as int) as u8, row_span: 1, col_span: 1 }
}

/// The number of cells used for `count` panels in a grid of `cells` cells.
pub open spec fn cells_used(count: int, cells: int) -> int {
    if count < cells {
        count
    } else {
        cells
    }
}

/// The first `count` cells of `grid` in row-major order; `MemoryFull` when
/// more than `limit` would be needed.
pub fn auto_positions(grid: &GridLayout, count: usize, limit: usize) -> (r: ChartResult<Vec<GridPosition>>)
    requires
        grid.wf(),
    ensures
        cells_used(count as int, grid.rows * grid.cols) > limit ==> r == Err::<
            Vec<GridPosition>,
            ChartError,
        >(ChartError::MemoryFull),
        cells_used(count as int, grid.rows * grid.cols) <= limit ==> (r matches Ok(v) && v@.len()
            == cells_used(count as int, grid.rows * grid.cols) && forall|i: int|
            0 <= i < v@.len() ==> #[trigger] v@[i] == grid_cell(grid.cols, i)),
{
    let mut positions: Vec<GridPosition> = Vec::new();
    let ghost cells = grid.rows * grid.cols;
    let mut row: u8 = 0;
    let mut col: u8 = 0;
    let mut index: usize = 0;
    while row < grid.rows && index < count
        invariant
            grid.wf(),
            cells == grid.rows * grid.cols,
            row <= grid.rows,
            col < grid.cols,
            row < grid.rows ==> index == row * grid.cols + col,
            row == grid.rows ==> index == cells && col == 0,
            index <= count,
            index <= limit,
            index <= cells,
            positions@.len() == index,
            forall|i: int| 0 <= i < index ==> #[trigger] positions@[i] == grid_cell(grid.cols, i),
        decreases cells - index,
    {
        proof {
            assert(row * grid.cols + col < grid.rows * grid.cols) by (nonlinear_arith)
                requires
                    row < grid.rows,
                    col < grid.cols,
            ;
        }
        if positions.len() >= limit {
            return Err(ChartError::MemoryFull);
        }
        proof {
            vstd::arithmetic::div_mod::lemma_fundamental_div_mod_converse(
                index as int,
                grid.cols as int,
                row as int,
                col as int,
            );
        }
        positions.push(GridPosition::new(row, col));
        index = index + 1;
        if col + 1 < grid.cols {
            col = col + 1;
        } else {
            proof {
                assert((row + 1) * grid.cols == row * grid.cols + grid.cols) by (nonlinear_arith);
            }
            col = 0;
            row = row + 1;
        }
    }
    Ok(positions)
}

} // verus!
