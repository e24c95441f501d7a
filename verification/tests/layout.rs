use plotr::layout::{axis_frame, grid_cell, plot_area_cell, AxisFrame, Cell, Side, AXIS_LENGTH};

fn covers(c: Cell, column: i32, row: i32) -> bool {
    c.column <= column && column < c.column + c.width && c.row <= row && row < c.row + c.height
}

#[test]
fn strips_take_the_outer_rows_and_columns() {
    assert_eq!(grid_cell(Side::Top), Cell { column: 0, row: 0, width: 3, height: 1 });
    assert_eq!(grid_cell(Side::Bottom), Cell { column: 0, row: 2, width: 3, height: 1 });
    assert_eq!(grid_cell(Side::Left), Cell { column: 0, row: 0, width: 1, height: 3 });
    assert_eq!(grid_cell(Side::Right), Cell { column: 2, row: 0, width: 1, height: 3 });
    assert_eq!(plot_area_cell(), Cell { column: 1, row: 1, width: 1, height: 1 });
}

#[test]
fn no_strip_covers_the_plot_area() {
    for side in [Side::Top, Side::Bottom, Side::Left, Side::Right] {
        assert!(!covers(grid_cell(side), 1, 1));
    }
    assert!(covers(grid_cell(Side::Top), 1, 0));
    assert!(covers(grid_cell(Side::Bottom), 1, 2));
    assert!(covers(grid_cell(Side::Left), 0, 1));
    assert!(covers(grid_cell(Side::Right), 2, 1));
}

#[test]
fn strip_sizes_follow_the_margin() {
    assert_eq!(
        axis_frame(Side::Bottom, 50),
        AxisFrame { width: AXIS_LENGTH, height: 50, hstretch: false, vstretch: false, no_ticks: false }
    );
    assert_eq!(
        axis_frame(Side::Top, 50),
        AxisFrame { width: 100, height: 50, hstretch: false, vstretch: false, no_ticks: true }
    );
    assert_eq!(
        axis_frame(Side::Left, 40),
        AxisFrame { width: 40, height: 100, hstretch: false, vstretch: false, no_ticks: false }
    );
    assert_eq!(axis_frame(Side::Right, 40), axis_frame(Side::Left, 40));
}
