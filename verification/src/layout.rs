//! Where the parts of a plot window sit: the plot area in the middle cell of
//! a three-by-three grid, one axis strip along each of its sides.

use vstd::prelude::*;

verus! {

/// The four sides of the plot area, each carrying one axis strip.
#[derive(Clone, Copy, Debug, PartialEq, Eq, Structural)]
pub enum Side {
    Top,
    Bottom,
    Left,
    Right,
}

/// A rectangle of grid cells: first column and row, then the number of
/// columns and rows it spans.
#[derive(Clone, Copy, Debug, PartialEq, Eq, Structural)]
pub struct Cell {
    pub column: i32,
    pub row: i32,
    pub width: i32,
    pub height: i32,
}

/// Size request and flags of an axis strip (the font size of its labels
/// aside).
#[derive(Clone, Copy, Debug, PartialEq, Eq, Structural)]
pub struct AxisFrame {
    pub width: i32,
    pub height: i32,
    pub hstretch: bool,
    pub vstretch: bool,
    pub no_ticks: bool,
}

/// Length requested by an axis strip along its side.
pub const AXIS_LENGTH: i32 = 100;

/// Grid cells of the axis strip on `side`: the horizontal strips span the
/// three columns of the first or last row, the vertical ones the three rows
/// of the first or last column.
pub open spec fn cell_of(side: Side) -> Cell {
    match side {
        Side::Top => Cell { column: 0, row: 0, width: 3, height: 1 },
        Side::Bottom => Cell { column: 0, row: 2, width: 3, height: 1 },
        Side::Left => Cell { column: 0, row: 0, width: 1, height: 3 },
        Side::Right => Cell { column: 2, row: 0, width: 1, height: 3 },
    }
}

/// The cell of the plot area: the middle one.
pub open spec fn plot_area() -> Cell {
    Cell { column: 1, row: 1, width: 1, height: 1 }
}

/// The strip on `side` for margin width `margin_width`: horizontal strips
/// are `AXIS_LENGTH` wide and one margin high, vertical ones the other way
/// round; only the top strip draws no ticks.
pub open spec fn frame_of(side: Side, margin_width: i32) -> AxisFrame {
    match side {
        Side::Top => AxisFrame {
            width: AXIS_LENGTH,
            height: margin_width,
            hstretch: false,
            vstretch: false,
            no_ticks: true,
        },
        Side::Bottom => AxisFrame {
            width: AXIS_LENGTH,
            height: margin_width,
            hstretch: false,
            vstretch: false,
            no_ticks: false,
        },
        Side::Left | Side::Right => AxisFrame {
            width: margin_width,
            height: AXIS_LENGTH,
            hstretch: false,
            vstretch: false,
            no_ticks: false,
        },
    }
}

/// Whether grid position (`column`, `row`) lies in `c`.
pub open spec fn covers(c: Cell, column: int, row: int) -> bool {
    c.column <= column < c.column + c.width && c.row <= row < c.row + c.height
}

/// Grid cells of the axis strip on `side`.
pub fn grid_cell(side: Side) -> (c: Cell)
    ensures
        c == cell_of(side),
{
    match side {
        Side::Top => Cell { column: 0, row: 0, width: 3, height: 1 },
        Side::Bottom => Cell { column: 0, row: 2, width: 3, height: 1 },
        Side::Left => Cell { column: 0, row: 0, width: 1, height: 3 },
        Side::Right => Cell { column: 2, row: 0, width: 1, height: 3 },
    }
}

/// The grid cell of the plot area.
pub fn plot_area_cell() -> (c: Cell)
    ensures
        c == plot_area(),
{
    Cell { column: 1, row: 1, width: 1, height: 1 }
}

/// Size request and flags of the axis strip on `side`.
pub fn axis_frame(side: Side, margin_width: i32) -> (f: AxisFrame)
    ensures
        f == frame_of(side, margin_width),
{
    match side {
        Side::Top => AxisFrame {
            width: AXIS_LENGTH,
            height: margin_width,
            hstretch: false,
            vstretch: false,
            no_ticks: true,
        },
        Side::Bottom => AxisFrame {
            width: AXIS_LENGTH,
            height: margin_width,
            hstretch: false,
            vstretch: false,
            no_ticks: false,
        },
        Side::Left | Side::Right => AxisFrame {
            width: margin_width,
            height: AXIS_LENGTH,
            hstretch: false,
            vstretch: false,
            no_ticks: false,
        },
    }
}

/// No axis strip covers the plot area, and every strip lies next to it: the
/// strip on each side covers the cell just beyond the plot area on that side.
pub proof fn strips_surround_plot_area(side: Side)
    ensures
        !covers(cell_of(side), 1, 1),
        match side {
            Side::Top => covers(cell_of(side), 1, 0),
            Side::Bottom => covers(cell_of(side), 1, 2),
            Side::Left => covers(cell_of(side), 0, 1),
            Side::Right => covers(cell_of(side), 2, 1),
        },
{
}

/// The grid is three by three: every strip, and the plot area, lies within
/// columns and rows 0 to 2.
pub proof fn layout_fits_grid(side: Side)
    ensures
        0 <= cell_of(side).column,
        cell_of(side).column + cell_of(side).width <= 3,
        0 <= cell_of(side).row,
        cell_of(side).row + cell_of(side).height <= 3,
        covers(plot_area(), 1, 1),
{
}

/// Strip sizes follow the margin width, whatever it is: the top and bottom
/// strips are `AXIS_LENGTH` wide and one margin high, the left and right
/// strips one margin wide and `AXIS_LENGTH` high; no strip stretches, and
/// only the top strip goes without ticks.
pub proof fn strip_sizes_follow_margin(margin_width: i32)
    ensures
        frame_of(Side::Top, margin_width).width == AXIS_LENGTH,
        frame_of(Side::Top, margin_width).height == margin_width,
        frame_of(Side::Bottom, margin_width).width == AXIS_LENGTH,
        frame_of(Side::Bottom, margin_width).height == margin_width,
        frame_of(Side::Left, margin_width).width == margin_width,
        frame_of(Side::Left, margin_width).height == AXIS_LENGTH,
        frame_of(Side::Right, margin_width).width == margin_width,
        frame_of(Side::Right, margin_width).height == AXIS_LENGTH,
        forall|side: Side|
            !(#[trigger] frame_of(side, margin_width)).hstretch && !frame_of(
                side,
                margin_width,
            ).vstretch && (frame_of(side, margin_width).no_ticks <==> side == Side::Top),
{
}

/// The top and bottom strips run along the whole first and last rows, the
/// left and right strips along the whole first and last columns, and each
/// strip is one cell thick.
pub proof fn strips_span_the_grid(k: int)
    requires
        0 <= k < 3,
    ensures
        covers(cell_of(Side::Top), k, 0),
        covers(cell_of(Side::Bottom), k, 2),
        covers(cell_of(Side::Left), 0, k),
        covers(cell_of(Side::Right), 2, k),
        !covers(cell_of(Side::Top), k, 1),
        !covers(cell_of(Side::Bottom), k, 1),
        !covers(cell_of(Side::Left), 1, k),
        !covers(cell_of(Side::Right), 1, k),
{
}

} // verus!
