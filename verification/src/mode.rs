//! Editor modes and how the cursor looks in each.

use vstd::prelude::*;

verus! {

#[derive(Clone, Copy, Debug, PartialEq, Eq, Structural)]
pub enum CursorShape {
    Block,
    Horizontal,
    Vertical,
}

/// One entry of the mode table.
#[derive(Clone, Copy, Debug, PartialEq, Eq)]
pub struct ModeInfo {
    /// Blink period in milliseconds; 0 for a steady cursor.
    pub blink_on: u64,
    pub cursor_shape: CursorShape,
    /// The part of the cell the cursor covers, in percent.
    pub cell_percentage: u64,
}

} // verus!
