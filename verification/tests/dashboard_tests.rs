use embedded_charts::chart::traits::Margins;
use embedded_charts::dashboard::grid::{GridLayout, GridPosition};
use embedded_charts::dashboard::layout::{DashboardLayout, LayoutPreset};
use embedded_charts::dashboard::simple::SimpleDashboard;
use embedded_charts::error::ChartError;
use embedded_charts::geometry::{Point, Rectangle, Size};

#[test]
fn test_grid_position() {
    let pos = GridPosition::new(1, 2);
    assert_eq!(pos.row, 1);
    assert_eq!(pos.col, 2);
    assert_eq!(pos.row_span, 1);
    assert_eq!(pos.col_span, 1);

    let span_pos = GridPosition::with_span(0, 0, 2, 3);
    assert_eq!(span_pos.row_span, 2);
    assert_eq!(span_pos.col_span, 3);
}

#[test]
fn test_grid_layout_2x2() {
    let layout = GridLayout::new(2, 2);
    let viewport = Rectangle::new(Point::new(0, 0), Size::new(200, 200));

    let cell = layout.calculate_cell_viewport(viewport, GridPosition::new(0, 0), 10);
    assert_eq!(cell.top_left, Point::new(0, 0));
    assert_eq!(cell.size, Size::new(95, 95));

    let cell = layout.calculate_cell_viewport(viewport, GridPosition::new(1, 1), 10);
    assert_eq!(cell.top_left, Point::new(105, 105));
    assert_eq!(cell.size, Size::new(95, 95));
}

#[test]
fn test_grid_layout_with_span() {
    let layout = GridLayout::new(3, 3);
    let viewport = Rectangle::new(Point::new(0, 0), Size::new(320, 320));

    let cell = layout.calculate_cell_viewport(viewport, GridPosition::with_span(0, 0, 2, 2), 10);
    assert_eq!(cell.top_left, Point::new(0, 0));
    assert_eq!(cell.size, Size::new(210, 210));
}

#[test]
fn test_layout_preset_conversion() {
    let layout = LayoutPreset::Quadrants.to_layout();
    match layout {
        DashboardLayout::Grid(grid) => {
            assert_eq!(grid.rows, 2);
            assert_eq!(grid.cols, 2);
        }
        _ => panic!("Expected grid layout"),
    }
}

#[test]
fn test_dashboard_layout_calculate_viewports() {
    let layout = DashboardLayout::Grid(GridLayout::new(2, 2));
    let viewport = Rectangle::new(Point::new(0, 0), Size::new(200, 200));

    let viewports = layout.calculate_viewports(viewport, 3, 10).unwrap();
    assert_eq!(viewports.len(), 3);

    assert_eq!(viewports[0].top_left, Point::new(0, 0));
    assert_eq!(viewports[0].size, Size::new(95, 95));

    assert_eq!(viewports[1].top_left, Point::new(105, 0));
    assert_eq!(viewports[1].size, Size::new(95, 95));

    assert_eq!(viewports[2].top_left, Point::new(0, 105));
    assert_eq!(viewports[2].size, Size::new(95, 95));
}

#[test]
fn test_simple_dashboard_creation() {
    let dashboard = SimpleDashboard::new(2, 2, 10);
    let viewport = Rectangle::new(Point::new(0, 0), Size::new(200, 200));

    let pos = GridPosition::new(0, 0);
    let chart_viewport = dashboard.get_viewport(pos, viewport);

    assert_eq!(chart_viewport.top_left, Point::new(0, 0));
    assert_eq!(chart_viewport.size.width, 95);
}

#[test]
fn test_layout_presets() {
    let preset = LayoutPreset::Quadrants;
    let layout = preset.to_layout();

    match layout {
        DashboardLayout::Grid(grid) => {
            assert_eq!(grid.rows, 2);
            assert_eq!(grid.cols, 2);
        }
        _ => panic!("Expected grid layout"),
    }
}

#[test]
fn test_simple_dashboard() {
    let dashboard = SimpleDashboard::new(2, 2, 10);
    let total_viewport = Rectangle::new(Point::new(0, 0), Size::new(200, 200));

    let viewport = dashboard.get_viewport(GridPosition::new(0, 0), total_viewport);
    assert_eq!(viewport.top_left, Point::new(0, 0));
    assert_eq!(viewport.size, Size::new(95, 95));

    let viewports: Vec<Rectangle> = dashboard.get_all_viewports::<4>(total_viewport, 3).unwrap();
    assert_eq!(viewports.len(), 3);
}

#[test]
fn flexible_layout_is_refused() {
    let viewport = Rectangle::new(Point::new(0, 0), Size::new(200, 200));
    assert_eq!(
        DashboardLayout::Flexible.calculate_viewports(viewport, 1, 0),
        Err(ChartError::ConfigurationError)
    );
}

#[test]
fn too_many_panels_is_memory_full() {
    let dashboard = SimpleDashboard::new(3, 3, 0);
    let total = Rectangle::new(Point::new(0, 0), Size::new(90, 90));
    assert_eq!(dashboard.get_all_viewports::<4>(total, 9), Err(ChartError::MemoryFull));
    let all = dashboard.get_all_viewports::<9>(total, 20).unwrap();
    assert_eq!(all.len(), 9);
    assert_eq!(all[4], Rectangle::new(Point::new(30, 30), Size::new(30, 30)));
    assert_eq!(all[8].top_left, Point::new(60, 60));
}

#[test]
fn explicit_positions_overflow_capacity() {
    let grid = GridLayout::new(2, 2);
    let total = Rectangle::new(Point::new(5, 5), Size::new(100, 50));
    let positions = [GridPosition::new(0, 0), GridPosition::new(1, 1)];
    assert_eq!(grid.calculate_viewports::<1>(total, &positions, 0), Err(ChartError::MemoryFull));
    let v = grid.calculate_viewports::<2>(total, &positions, 0).unwrap();
    assert_eq!(v[1], Rectangle::new(Point::new(55, 30), Size::new(50, 25)));
}

#[test]
fn zero_sized_grid_counts_as_one_cell() {
    let grid = GridLayout::new(0, 0);
    assert_eq!(grid, GridLayout { rows: 1, cols: 1 });
    assert_eq!(GridLayout::default(), GridLayout { rows: 2, cols: 2 });
}

#[test]
fn test_margins_creation() {
    let margins = Margins::all(5);
    assert_eq!(margins.top, 5);
    assert_eq!(margins.right, 5);
    assert_eq!(margins.bottom, 5);
    assert_eq!(margins.left, 5);
}

#[test]
fn test_margins_symmetric() {
    let margins = Margins::symmetric(10, 20);
    assert_eq!(margins.top, 20);
    assert_eq!(margins.right, 10);
    assert_eq!(margins.bottom, 20);
    assert_eq!(margins.left, 10);
}

#[test]
fn test_margins_totals() {
    let margins = Margins::new(5, 10, 15, 20);
    assert_eq!(margins.horizontal(), 30);
    assert_eq!(margins.vertical(), 20);
}

#[test]
fn test_margins_apply_to() {
    let margins = Margins::all(10);
    let rect = Rectangle::new(Point::new(0, 0), Size::new(100, 80));
    let inner = margins.apply_to(rect);

    assert_eq!(inner.top_left, Point::new(10, 10));
    assert_eq!(inner.size, Size::new(80, 60));
}

#[test]
fn margins_larger_than_rect_shrink_to_zero() {
    let margins = Margins::new(30, 40, 50, 60);
    let inner = margins.apply_to(Rectangle::new(Point::new(-5, 7), Size::new(90, 70)));
    assert_eq!(inner.top_left, Point::new(55, 37));
    assert_eq!(inner.size, Size::new(0, 0));
    assert_eq!(Margins::default(), Margins::all(10));
}

#[test]
fn spanning_cell_stays_inside_total() {
    let grid = GridLayout::new(3, 4);
    let total = Rectangle::new(Point::new(7, 3), Size::new(103, 61));
    let cell = grid.calculate_cell_viewport(total, GridPosition::with_span(1, 2, 2, 2), 5);
    assert!(cell.top_left.x >= 7 && cell.top_left.x + cell.size.width as i32 <= 110);
    assert!(cell.top_left.y >= 3 && cell.top_left.y + cell.size.height as i32 <= 64);
    let left = grid.calculate_cell_viewport(total, GridPosition::new(0, 0), 5);
    let right = grid.calculate_cell_viewport(total, GridPosition::new(0, 1), 5);
    assert!(left.top_left.x + left.size.width as i32 <= right.top_left.x);
}
