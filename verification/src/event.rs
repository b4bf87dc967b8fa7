//! The events that the editor sends.
//!
//! A notification carries either a batch of redraw events, to be applied in
//! the order given, or one event of the client's own protocol. Grids,
//! windows and tab pages are named by the numbers the editor gave them.

use crate::color::{Color, Highlight};
use crate::font::Font;
use crate::grid::GridLineSegment;
use crate::mode::ModeInfo;
use crate::window::Anchor;
use vstd::prelude::*;

verus! {

#[derive(Clone, Copy, Debug, PartialEq, Eq)]
pub struct GridCursorGoto {
    pub grid: i64,
    pub row: u64,
    pub col: u64,
}

#[derive(Clone, Copy, Debug, PartialEq, Eq)]
pub struct GridResize {
    pub grid: i64,
    pub width: u64,
    pub height: u64,
}

/// Moves the content of rows `top..bot`, columns `left..right`, down by
/// `rows` and right by `cols`; negative values move it up and left.
#[derive(Clone, Copy, Debug, PartialEq, Eq)]
pub struct GridScroll {
    pub grid: i64,
    pub top: u64,
    pub bot: u64,
    pub left: u64,
    pub right: u64,
    pub rows: i64,
    pub cols: i64,
}

#[derive(Clone, Copy, Debug, PartialEq, Eq)]
pub struct DefaultColorsSet {
    pub fg: Color,
    pub bg: Color,
    pub sp: Color,
}

#[derive(Clone, Copy, Debug, PartialEq, Eq)]
pub struct HlAttrDefine {
    pub id: u64,
    pub hl: Highlight,
}

#[derive(Clone, Debug, PartialEq, Eq)]
pub struct HlGroupSet {
    pub name: String,
    pub hl_id: u64,
}

#[derive(Clone, Debug, PartialEq, Eq)]
pub enum OptionSet {
    /// The font the option names, measured by the embedder; `None` where
    /// the option's text names no font.
    GuiFont(Option<Font>),
    LineSpace(i64),
    NotSupported(String),
}

#[derive(Clone, Debug, PartialEq, Eq)]
pub struct ModeInfoSet {
    pub cursor_shape_enabled: bool,
    pub mode_info: Vec<ModeInfo>,
}

#[derive(Clone, Debug, PartialEq, Eq)]
pub struct ModeChange {
    pub name: String,
    pub index: u64,
}

#[derive(Clone, Debug, PartialEq, Eq)]
pub struct CompletionItem {
    pub word: String,
    pub kind: String,
    pub menu: String,
    pub info: String,
}

#[derive(Clone, Debug, PartialEq, Eq)]
pub struct PopupmenuShow {
    pub items: Vec<CompletionItem>,
    pub selected: i64,
    pub row: u64,
    pub col: u64,
    pub grid: i64,
}

#[derive(Clone, Debug, PartialEq, Eq)]
pub struct TablineUpdate {
    pub current: i64,
    pub tabs: Vec<(i64, String)>,
}

#[derive(Clone, Debug, PartialEq, Eq)]
pub struct CmdlineShow {
    pub content: Vec<(u64, String)>,
    pub pos: u64,
    pub firstc: String,
    pub prompt: String,
    pub indent: u64,
    pub level: u64,
}

#[derive(Clone, Copy, Debug, PartialEq, Eq)]
pub struct CmdlinePos {
    pub pos: u64,
    pub level: u64,
}

#[derive(Clone, Debug, PartialEq, Eq)]
pub struct CmdlineSpecialChar {
    pub character: String,
    pub shift: bool,
    pub level: u64,
}

#[derive(Clone, Debug, PartialEq, Eq)]
pub struct CmdlineBlockShow {
    pub lines: Vec<Vec<(u64, String)>>,
}

#[derive(Clone, Debug, PartialEq, Eq)]
pub struct CmdlineBlockAppend {
    pub line: Vec<(u64, String)>,
}

#[derive(Clone, Debug, PartialEq, Eq)]
pub struct WildmenuShow(pub Vec<String>);

/// Places a normal window: its corner and size in cells of the base grid.
#[derive(Clone, Copy, Debug, PartialEq, Eq)]
pub struct WindowPos {
    pub grid: i64,
    pub win: i64,
    pub start_row: u64,
    pub start_col: u64,
    pub width: u64,
    pub height: u64,
}

/// Places a floating window: the corner `anchor` of the window goes to the
/// cell (`anchor_row`, `anchor_col`) of `anchor_grid`.
#[derive(Clone, Copy, Debug, PartialEq, Eq)]
pub struct WindowFloatPos {
    pub grid: i64,
    pub win: i64,
    pub anchor: Anchor,
    pub anchor_grid: i64,
    pub anchor_row: i64,
    pub anchor_col: i64,
    pub focusable: bool,
}

#[derive(Clone, Copy, Debug, PartialEq, Eq)]
pub struct WindowExternalPos {
    pub grid: i64,
    pub win: i64,
}

#[derive(Clone, Debug, PartialEq, Eq)]
pub struct MsgSetPos {
    pub grid: i64,
    pub row: u64,
    pub scrolled: bool,
    pub sep_char: String,
}

/// One event of a redraw batch.
#[derive(Clone, Debug, PartialEq, Eq)]
pub enum RedrawEvent {
    SetTitle(String),
    GridLine(GridLineSegment),
    GridCursorGoto(GridCursorGoto),
    GridResize(GridResize),
    GridClear(i64),
    GridDestroy(i64),
    GridScroll(GridScroll),
    DefaultColorsSet(DefaultColorsSet),
    HlAttrDefine(HlAttrDefine),
    HlGroupSet(HlGroupSet),
    OptionSet(OptionSet),
    ModeInfoSet(ModeInfoSet),
    ModeChange(ModeChange),
    SetBusy(bool),
    /// Ends a batch: everything since the last flush becomes visible.
    Flush,
    PopupmenuShow(PopupmenuShow),
    PopupmenuHide,
    PopupmenuSelect(i64),
    TablineUpdate(TablineUpdate),
    CmdlineShow(CmdlineShow),
    CmdlineHide,
    CmdlinePos(CmdlinePos),
    CmdlineSpecialChar(CmdlineSpecialChar),
    CmdlineBlockShow(CmdlineBlockShow),
    CmdlineBlockAppend(CmdlineBlockAppend),
    CmdlineBlockHide,
    WildmenuShow(WildmenuShow),
    WildmenuHide,
    WildmenuSelect(i64),
    WindowPos(WindowPos),
    WindowFloatPos(WindowFloatPos),
    WindowExternalPos(WindowExternalPos),
    WindowHide(i64),
    WindowClose(i64),
    MsgSetPos(MsgSetPos),
    /// An event that is known and has no effect here.
    Ignored(String),
    /// An event that is not known.
    Unknown(String),
}

/// One event of the client's own protocol.
#[derive(Clone, Debug, PartialEq, Eq)]
pub enum GnvimEvent {
    CompletionMenuToggleInfo,
    CursorTooltipLoadStyle(String),
    CursorTooltipShow(String, u64, u64),
    CursorTooltipHide,
    CursorTooltipSetStyle(String),
    PopupmenuWidth(u64),
    PopupmenuWidthDetails(u64),
    PopupmenuShowMenuOnAllItems(bool),
    Unknown(String),
}

/// One notification from the editor.
#[derive(Debug, PartialEq, Eq)]
pub enum Notify {
    /// A batch of redraw events, in the order in which they apply.
    RedrawEvent(Vec<RedrawEvent>),
    /// An event of the client's own protocol, or the reason why it could
    /// not be read.
    GnvimEvent(Result<GnvimEvent, String>),
}

} // verus!
