//! Lengths and rectangles on the screen.
//!
//! Every length is a whole number of the embedder's unit. Results are kept
//! within `0..=i64::MAX`: a value outside that range is moved to the nearer
//! end.

use vstd::prelude::*;

verus! {

/// `v` moved into `0..=i64::MAX`.
pub open spec fn clamp_px(v: int) -> int {
    if v < 0 {
        0
    } else if v > i64::MAX as int {
        i64::MAX as int
    } else {
        v
    }
}

/// `v` moved into the range of `i64`.
pub open spec fn clamp_i64(v: int) -> int {
    if v < i64::MIN as int {
        i64::MIN as int
    } else if v > i64::MAX as int {
        i64::MAX as int
    } else {
        v
    }
}

/// The least `q` with `q * d >= n`, for `n >= 0` and `d > 0`.
pub open spec fn ceil_div(n: int, d: int) -> int {
    (n + d - 1) / d
}

pub fn to_px(v: i128) -> (p: i64)
    ensures
        p == clamp_px(v as int),
{
    if v < 0 {
        0
    } else if v > i64::MAX as i128 {
        i64::MAX
    } else {
        v as i64
    }
}

pub fn to_i64(v: i128) -> (p: i64)
    ensures
        p == clamp_i64(v as int),
{
    if v < i64::MIN as i128 {
        i64::MIN
    } else if v > i64::MAX as i128 {
        i64::MAX
    } else {
        v as i64
    }
}

/// `ceil_div` on machine integers.
pub fn div_ceil(n: i64, d: u32) -> (q: i64)
    requires
        n >= 0,
        d >= 1,
    ensures
        q == ceil_div(n as int, d as int),
        0 <= q <= n,
{
    let n1: u64 = n as u64;
    let d1: u64 = d as u64;
    let q: u64 = (n1 + d1 - 1) / d1;
    assert(q <= n1) by (nonlinear_arith)
        requires
            q == (n1 + d1 - 1) / (d1 as int),
            d1 >= 1,
    ;
    q as i64
}

/// `ceil_div(n, d)` is the least multiple count of `d` that reaches `n`.
pub proof fn lemma_ceil_div(n: int, d: int)
    requires
        n >= 0,
        d > 0,
    ensures
        ceil_div(n, d) * d >= n,
        (ceil_div(n, d) - 1) * d < n,
        ceil_div(n, d) >= 0,
{
    let q = ceil_div(n, d);
    assert(q * d >= n && (q - 1) * d < n && q >= 0) by (nonlinear_arith)
        requires
            q == (n + d - 1) / d,
            n >= 0,
            d > 0,
    ;
}

/// A rectangle: its top-left corner and its extent.
#[derive(Clone, Copy, Debug, PartialEq, Eq, Structural)]
pub struct Rect {
    pub x: i64,
    pub y: i64,
    pub width: i64,
    pub height: i64,
}

/// The size of a grid in cells and the extent of one cell.
#[derive(Clone, Copy, Debug, PartialEq, Eq, Structural)]
pub struct GridMetrics {
    pub rows: u64,
    pub cols: u64,
    pub cell_width: u32,
    pub cell_height: u32,
}

/// The widest product of a cell count and a cell extent.
pub open spec fn max_extent() -> int {
    0x1_0000_0000_0000_0000_0000_0000int
}

/// `count` cells of `extent` each.
pub fn scale(count: i128, extent: u32) -> (p: i128)
    requires
        -0x1_0000_0000_0000_0000 <= count <= 0x1_0000_0000_0000_0000,
    ensures
        p == count as int * extent as int,
        -max_extent() <= p <= max_extent(),
        count >= 0 ==> p >= 0,
{
    assert(-max_extent() <= count as int * extent as int <= max_extent() && (count >= 0 ==> count
        as int * extent as int >= 0)) by (nonlinear_arith)
        requires
            -0x1_0000_0000_0000_0000 <= count <= 0x1_0000_0000_0000_0000,
            0 <= extent <= 0xffff_ffff,
    ;
    count * (extent as i128)
}

impl GridMetrics {
    /// The width of the whole grid.
    pub open spec fn spec_width(&self) -> int {
        self.cols as int * self.cell_width as int
    }

    /// The height of the whole grid.
    pub open spec fn spec_height(&self) -> int {
        self.rows as int * self.cell_height as int
    }

    pub fn width(&self) -> (w: i128)
        ensures
            w == self.spec_width(),
            0 <= w <= max_extent(),
    {
        scale(self.cols as i128, self.cell_width)
    }

    pub fn height(&self) -> (h: i128)
        ensures
            h == self.spec_height(),
            0 <= h <= max_extent(),
    {
        scale(self.rows as i128, self.cell_height)
    }
}

} // verus!
