//! Windows: where a grid is shown, and how a floating window finds its
//! place.

use crate::geometry::{
    ceil_div, clamp_i64, clamp_px, div_ceil, scale, to_i64, to_px, GridMetrics, Rect,
};
use vstd::prelude::*;

verus! {

#[derive(Clone, Copy, Debug, PartialEq, Eq, Structural)]
pub enum WindowKind {
    /// Laid out by the editor among the other windows.
    Normal,
    /// Placed relative to a cell of another grid.
    Floating,
    /// Shown in a surface of its own, outside the main one.
    External,
}

/// The corner of a floating window that sits on its anchor point.
#[derive(Clone, Copy, Debug, PartialEq, Eq, Structural)]
pub enum Anchor {
    NW,
    NE,
    SW,
    SE,
}

impl Anchor {
    pub open spec fn spec_is_west(&self) -> bool {
        *self == Anchor::NW || *self == Anchor::SW
    }

    pub open spec fn spec_is_north(&self) -> bool {
        *self == Anchor::NW || *self == Anchor::NE
    }

    #[verifier::when_used_as_spec(spec_is_west)]
    pub fn is_west(&self) -> (west: bool)
        ensures
            west == self.spec_is_west(),
    {
        match self {
            Anchor::NW => true,
            Anchor::SW => true,
            _ => false,
        }
    }

    #[verifier::when_used_as_spec(spec_is_north)]
    pub fn is_north(&self) -> (north: bool)
        ensures
            north == self.spec_is_north(),
    {
        match self {
            Anchor::NW => true,
            Anchor::NE => true,
            _ => false,
        }
    }
}

/// The placement of one grid on the screen. `handle` names the editor's
/// window object; the model passes it on and never looks inside.
#[derive(Clone, Copy, Debug, PartialEq, Eq)]
pub struct Window {
    pub grid: i64,
    pub handle: i64,
    pub kind: WindowKind,
    pub x: i64,
    pub y: i64,
    pub width: i64,
    pub height: i64,
    pub visible: bool,
}

impl Window {
    /// A window that has no place yet and is not shown.
    pub open spec fn spec_new(grid: i64, handle: i64, kind: WindowKind) -> Window {
        Window { grid, handle, kind, x: 0, y: 0, width: 0, height: 0, visible: false }
    }

    /// The window of the given kind at `rect`, shown.
    pub open spec fn placed(self, kind: WindowKind, rect: Rect) -> Window {
        Window {
            kind,
            x: rect.x,
            y: rect.y,
            width: rect.width,
            height: rect.height,
            visible: true,
            ..self
        }
    }

    /// The window as an external one of the given extent, shown.
    pub open spec fn external(self, width: i64, height: i64) -> Window {
        Window { kind: WindowKind::External, width, height, visible: true, ..self }
    }

    pub open spec fn hidden(self) -> Window {
        Window { visible: false, ..self }
    }

    #[verifier::when_used_as_spec(spec_new)]
    pub fn new(grid: i64, handle: i64, kind: WindowKind) -> (window: Window)
        ensures
            window == Window::spec_new(grid, handle, kind),
    {
        Window { grid, handle, kind, x: 0, y: 0, width: 0, height: 0, visible: false }
    }

    pub fn place(&mut self, kind: WindowKind, rect: Rect)
        ensures
            *final(self) == old(self).placed(kind, rect),
    {
        self.kind = kind;
        self.x = rect.x;
        self.y = rect.y;
        self.width = rect.width;
        self.height = rect.height;
        self.visible = true;
    }

    pub fn set_external(&mut self, width: i64, height: i64)
        ensures
            *final(self) == old(self).external(width, height),
    {
        self.kind = WindowKind::External;
        self.width = width;
        self.height = height;
        self.visible = true;
    }

    pub fn conceal(&mut self)
        ensures
            *final(self) == old(self).hidden(),
    {
        self.visible = false;
    }
}

/// Where a normal window lies: the editor gives its corner and its size in
/// cells of the base grid.
pub open spec fn normal_rect(
    base: GridMetrics,
    start_row: u64,
    start_col: u64,
    width: u64,
    height: u64,
) -> Rect {
    Rect {
        x: clamp_px(start_col as int * base.cell_width as int) as i64,
        y: clamp_px(start_row as int * base.cell_height as int) as i64,
        width: clamp_px(width as int * base.cell_width as int) as i64,
        height: clamp_px(height as int * base.cell_height as int) as i64,
    }
}

pub fn place_normal(base: GridMetrics, start_row: u64, start_col: u64, width: u64, height: u64) -> (rect:
    Rect)
    ensures
        rect == normal_rect(base, start_row, start_col, width, height),
{
    Rect {
        x: to_px(scale(start_col as i128, base.cell_width)),
        y: to_px(scale(start_row as i128, base.cell_height)),
        width: to_px(scale(width as i128, base.cell_width)),
        height: to_px(scale(height as i128, base.cell_height)),
    }
}

/// One coordinate of a floating window's corner: the anchor point, which
/// is `offset` plus `cells` cells of `extent` each, less the window's own
/// `size` where the window lies before the anchor point; never below zero.
pub open spec fn float_coord(offset: i64, extent: u32, cells: i64, size: int, before: bool) -> int {
    clamp_px(
        offset as int + extent as int * cells as int - if before {
            size
        } else {
            0
        },
    )
}

/// Where a floating window lies, given the corner `offset` of the anchor
/// grid's window, the anchor grid's metrics, the anchor cell, and the
/// metrics of the floating grid itself. A window anchored by a southern
/// corner lies above the anchor point, one anchored by an eastern corner
/// left of it.
pub open spec fn float_rect(
    anchor: Anchor,
    offset_x: i64,
    offset_y: i64,
    anchor_metrics: GridMetrics,
    anchor_row: i64,
    anchor_col: i64,
    grid: GridMetrics,
) -> Rect {
    Rect {
        x: float_coord(
            offset_x,
            anchor_metrics.cell_width,
            anchor_col,
            grid.spec_width(),
            !anchor.spec_is_west(),
        ) as i64,
        y: float_coord(
            offset_y,
            anchor_metrics.cell_height,
            anchor_row,
            grid.spec_height(),
            !anchor.spec_is_north(),
        ) as i64,
        width: clamp_px(grid.spec_width()) as i64,
        height: clamp_px(grid.spec_height()) as i64,
    }
}

pub fn place_float(
    anchor: Anchor,
    offset_x: i64,
    offset_y: i64,
    anchor_metrics: GridMetrics,
    anchor_row: i64,
    anchor_col: i64,
    grid: GridMetrics,
) -> (rect: Rect)
    ensures
        rect == float_rect(anchor, offset_x, offset_y, anchor_metrics, anchor_row, anchor_col, grid),
        rect.x >= 0,
        rect.y >= 0,
{
    let width = grid.width();
    let height = grid.height();
    let x = offset_x as i128 + scale(anchor_col as i128, anchor_metrics.cell_width) - if anchor.is_west() {
        0
    } else {
        width
    };
    let y = offset_y as i128 + scale(anchor_row as i128, anchor_metrics.cell_height) - if anchor.is_north() {
        0
    } else {
        height
    };
    assert(anchor_metrics.cell_width as int * anchor_col as int == anchor_col as int
        * anchor_metrics.cell_width as int) by (nonlinear_arith);
    assert(anchor_metrics.cell_height as int * anchor_row as int == anchor_row as int
        * anchor_metrics.cell_height as int) by (nonlinear_arith);
    Rect { x: to_px(x), y: to_px(y), width: to_px(width), height: to_px(height) }
}

/// The most cells of `extent` each that lie between the place `at` and the
/// edge of a grid of `base_count` such cells: the cells of that grid, less
/// those that `at` has begun. None where `at` lies at or past the edge;
/// never more than `i64::MAX`.
pub open spec fn most_that_fit(base_count: u64, extent: u32, at: i64) -> int {
    clamp_px(base_count as int - ceil_div(at as int, extent as int))
}

/// The count a floating grid of `count` cells has to shrink to along one
/// axis where, placed at `at`, it reaches past the edge of the base grid:
/// the most that fit. `None` where it does not reach past.
pub open spec fn fit_count(count: u64, base_count: u64, extent: u32, at: i64) -> Option<i64> {
    if count as int * extent as int + at as int > base_count as int * extent as int {
        Some(most_that_fit(base_count, extent, at) as i64)
    } else {
        None
    }
}

/// The columns a floating grid has to shrink to where, placed at `x`, it
/// reaches past the right edge of the base grid: as many whole columns as
/// lie between `x` and that edge. `None` where it does not reach past.
pub open spec fn fit_cols(grid: GridMetrics, base: GridMetrics, x: i64) -> Option<i64> {
    fit_count(grid.cols, base.cols, base.cell_width, x)
}

/// The rows a floating grid has to shrink to where, placed at `y`, it
/// reaches past the bottom edge of the base grid: as many whole rows as
/// lie between `y` and that edge. `None` where it does not reach past.
pub open spec fn fit_rows(grid: GridMetrics, base: GridMetrics, y: i64) -> Option<i64> {
    fit_count(grid.rows, base.rows, base.cell_height, y)
}

/// The size, as (columns, rows), that the editor is asked to give a
/// floating grid placed at (`x`, `y`); `None` where the grid fits as it is.
/// A dimension that fits keeps its value.
pub open spec fn float_resize(grid: GridMetrics, base: GridMetrics, x: i64, y: i64) -> Option<
    (i64, i64),
> {
    let cols = fit_cols(grid, base, x);
    let rows = fit_rows(grid, base, y);
    if cols is Some || rows is Some {
        Some(
            (
                match cols {
                    Some(c) => c,
                    None => clamp_i64(grid.cols as int) as i64,
                },
                match rows {
                    Some(r) => r,
                    None => clamp_i64(grid.rows as int) as i64,
                },
            ),
        )
    } else {
        None
    }
}

/// The count to ask for along one axis, for a floating grid of `count`
/// cells placed at `at`.
fn fit_one(count: u64, base_count: u64, extent: u32, at: i64) -> (fit: Option<i64>)
    requires
        at >= 0,
        extent >= 1,
    ensures
        fit == fit_count(count, base_count, extent, at),
{
    if scale(count as i128, extent) + at as i128 > scale(base_count as i128, extent) {
        Some(to_px(base_count as i128 - div_ceil(at, extent) as i128))
    } else {
        None
    }
}

/// The size to ask the editor for, for a floating grid placed at (`x`,
/// `y`). The place is one that [`place_float`] gave, so it is not negative;
/// the base grid's cells have an extent.
pub fn fit_float(grid: GridMetrics, base: GridMetrics, x: i64, y: i64) -> (size: Option<(i64, i64)>)
    requires
        x >= 0,
        y >= 0,
        base.cell_width >= 1,
        base.cell_height >= 1,
    ensures
        size == float_resize(grid, base, x, y),
{
    let cols = fit_one(grid.cols, base.cols, base.cell_width, x);
    let rows = fit_one(grid.rows, base.rows, base.cell_height, y);
    if cols.is_some() || rows.is_some() {
        Some(
            (
                match cols {
                    Some(c) => c,
                    None => to_i64(grid.cols as i128),
                },
                match rows {
                    Some(r) => r,
                    None => to_i64(grid.rows as i128),
                },
            ),
        )
    } else {
        None
    }
}

/// The extent below row `row` of the base grid: what the message window
/// covers.
pub open spec fn msg_height(base: GridMetrics, row: u64) -> int {
    clamp_px(base.spec_height() - row as int * base.cell_height as int)
}

pub fn message_height(base: GridMetrics, row: u64) -> (height: i64)
    ensures
        height == msg_height(base, row),
{
    to_px(base.height() - scale(row as i128, base.cell_height))
}

/// `rect` moved by the corner of `window`.
pub open spec fn offset_rect(rect: Rect, window: Window) -> Rect {
    Rect {
        x: clamp_i64(rect.x as int + window.x as int) as i64,
        y: clamp_i64(rect.y as int + window.y as int) as i64,
        ..rect
    }
}

pub fn shift_rect(rect: Rect, window: &Window) -> (moved: Rect)
    ensures
        moved == offset_rect(rect, *window),
{
    Rect {
        x: to_i64(rect.x as i128 + window.x as i128),
        y: to_i64(rect.y as i128 + window.y as i128),
        width: rect.width,
        height: rect.height,
    }
}

/// A window anchored by its south-east corner to cell (0, 0) of a grid has
/// its bottom-right corner on that grid's corner, as far as there is room:
/// its own corner lies the window's extent before the grid's corner, and at
/// zero where the window is larger than that.
pub proof fn lemma_float_south_east(
    offset_x: i64,
    offset_y: i64,
    anchor_metrics: GridMetrics,
    grid: GridMetrics,
)
    ensures
        ({
            let rect = float_rect(Anchor::SE, offset_x, offset_y, anchor_metrics, 0, 0, grid);
            &&& grid.spec_width() <= offset_x ==> rect.x + grid.spec_width() == offset_x
            &&& grid.spec_width() > offset_x ==> rect.x == 0
            &&& grid.spec_height() <= offset_y ==> rect.y + grid.spec_height() == offset_y
            &&& grid.spec_height() > offset_y ==> rect.y == 0
        }),
{
    assert(grid.spec_width() >= 0 && grid.spec_height() >= 0) by (nonlinear_arith)
        requires
            grid.spec_width() == grid.cols as int * grid.cell_width as int,
            grid.spec_height() == grid.rows as int * grid.cell_height as int,
    ;
}

/// Whatever the anchor, a floating window never starts left of or above
/// the screen's origin.
pub proof fn lemma_float_not_negative(
    anchor: Anchor,
    offset_x: i64,
    offset_y: i64,
    anchor_metrics: GridMetrics,
    anchor_row: i64,
    anchor_col: i64,
    grid: GridMetrics,
)
    ensures
        float_rect(anchor, offset_x, offset_y, anchor_metrics, anchor_row, anchor_col, grid).x >= 0,
        float_rect(anchor, offset_x, offset_y, anchor_metrics, anchor_row, anchor_col, grid).y >= 0,
{
}

/// The count asked for along an axis is the most that fits. Where the
/// place lies before the edge of the base grid, that many cells from the
/// place on end at or before the edge, and one more would not; it is less
/// than the count the floating grid has. Where the place lies past the
/// edge, nothing fits and the count asked for is 0.
pub proof fn lemma_fit_is_most(count: u64, base_count: u64, extent: u32, at: i64)
    requires
        at >= 0,
        extent >= 1,
        fit_count(count, base_count, extent, at) is Some,
    ensures
        ({
            let edge = base_count as int * extent as int;
            let most = base_count as int - ceil_div(at as int, extent as int);
            let asked = fit_count(count, base_count, extent, at)->0;
            &&& 0 <= asked <= count
            &&& at <= edge ==> {
                &&& most >= 0
                &&& asked == clamp_px(most)
                &&& most < count
                &&& at + most * extent <= edge
                &&& at + (most + 1) * extent > edge
            }
            &&& at > edge ==> asked == 0
        }),
{
    let w = extent as int;
    let q = ceil_div(at as int, w);
    let edge = base_count as int * w;
    crate::geometry::lemma_ceil_div(at as int, w);
    let most = base_count as int - q;
    assert(at + most * w <= edge && at + (most + 1) * w > edge) by (nonlinear_arith)
        requires
            q * w >= at,
            (q - 1) * w < at,
            most == base_count as int - q,
            edge == base_count as int * w,
    ;
    assert(most < count) by (nonlinear_arith)
        requires
            at + (most + 1) * w > edge,
            at + most * w <= edge,
            count as int * w + at > edge,
            w >= 1,
    ;
    if at <= edge {
        assert(most >= 0) by (nonlinear_arith)
            requires
                at + (most + 1) * w > edge,
                at <= edge,
                w >= 1,
        ;
    } else {
        assert(most < 0) by (nonlinear_arith)
            requires
                at + most * w <= edge,
                at > edge,
                w >= 1,
        ;
    }
}

/// The columns asked for are the most that fit between `x` and the right
/// edge of the base grid.
pub proof fn lemma_fit_cols_is_most(grid: GridMetrics, base: GridMetrics, x: i64)
    requires
        x >= 0,
        base.cell_width >= 1,
        fit_cols(grid, base, x) is Some,
    ensures
        ({
            let edge = base.cols as int * base.cell_width as int;
            let most = base.cols as int - ceil_div(x as int, base.cell_width as int);
            let asked = fit_cols(grid, base, x)->0;
            &&& 0 <= asked <= grid.cols
            &&& x <= edge ==> {
                &&& asked == clamp_px(most)
                &&& 0 <= most < grid.cols
                &&& x + most * base.cell_width <= edge
                &&& x + (most + 1) * base.cell_width > edge
            }
            &&& x > edge ==> asked == 0
        }),
{
    lemma_fit_is_most(grid.cols, base.cols, base.cell_width, x);
}

/// The rows asked for are the most that fit between `y` and the bottom
/// edge of the base grid.
pub proof fn lemma_fit_rows_is_most(grid: GridMetrics, base: GridMetrics, y: i64)
    requires
        y >= 0,
        base.cell_height >= 1,
        fit_rows(grid, base, y) is Some,
    ensures
        ({
            let edge = base.rows as int * base.cell_height as int;
            let most = base.rows as int - ceil_div(y as int, base.cell_height as int);
            let asked = fit_rows(grid, base, y)->0;
            &&& 0 <= asked <= grid.rows
            &&& y <= edge ==> {
                &&& asked == clamp_px(most)
                &&& 0 <= most < grid.rows
                &&& y + most * base.cell_height <= edge
                &&& y + (most + 1) * base.cell_height > edge
            }
            &&& y > edge ==> asked == 0
        }),
{
    lemma_fit_is_most(grid.rows, base.rows, base.cell_height, y);
}

/// Whatever a floating grid is asked to shrink to, no dimension is
/// negative and none is more than the grid has.
pub proof fn lemma_float_resize_shrinks(grid: GridMetrics, base: GridMetrics, x: i64, y: i64)
    requires
        x >= 0,
        y >= 0,
        base.cell_width >= 1,
        base.cell_height >= 1,
        float_resize(grid, base, x, y) is Some,
    ensures
        ({
            let (cols, rows) = float_resize(grid, base, x, y)->0;
            &&& 0 <= cols <= grid.cols
            &&& 0 <= rows <= grid.rows
        }),
{
    if fit_cols(grid, base, x) is Some {
        lemma_fit_is_most(grid.cols, base.cols, base.cell_width, x);
    }
    if fit_rows(grid, base, y) is Some {
        lemma_fit_is_most(grid.rows, base.rows, base.cell_height, y);
    }
}

} // verus!
