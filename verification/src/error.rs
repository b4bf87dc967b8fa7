//! What the editor may not send.

use vstd::prelude::*;

verus! {

/// A violation of the protocol by the editor. The event that causes one
/// changes nothing in the model.
#[derive(Clone, Copy, Debug, PartialEq, Eq)]
pub enum ProtocolError {
    /// An event names a grid that no resize event has created.
    UnknownGrid(i64),
    /// An event names a window that no position event has created.
    UnknownWindow(i64),
    /// The base grid was to be destroyed.
    BaseGridDestroyed,
    /// A mode change names an entry that the mode table does not have.
    ModeIndexOutOfRange(u64),
    /// A line update leaves the grid.
    LineOutOfBounds { grid: i64, row: u64 },
    /// A scroll names a region that is not inside the grid.
    ScrollRegionOutOfBounds { grid: i64 },
}

} // verus!
