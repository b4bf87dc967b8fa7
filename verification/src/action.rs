//! What the model asks of the world around it.
//!
//! Applying an event yields a list of actions, in the order in which they
//! are to be carried out: calls on the toolkit and on the auxiliary
//! surfaces, and requests to the editor. The model never waits for one.

use crate::color::{Color, Style};
use crate::event::{
    CmdlineBlockAppend, CmdlineBlockShow, CmdlinePos, CmdlineShow, CmdlineSpecialChar,
    CompletionItem, TablineUpdate,
};
use crate::font::Font;
use crate::geometry::{clamp_i64, to_i64, Rect};
use crate::grid::Grid;
use vstd::prelude::*;

verus! {

/// A command line for the editor to execute.
#[derive(Clone, Debug, PartialEq, Eq)]
pub enum Command {
    /// Runs the user's autocommands for a scrolled grid, if there are any.
    GnvimScroll,
    /// Tells the user that a notification could not be read, and why.
    EchoNotifyParseFailed(String),
    /// Tells the user that this build has no cursor tooltip.
    EchoTooltipUnsupported,
    /// Tells the user that the tooltip's style could not be loaded, and why.
    EchoTooltipStyleFailed(String),
}

impl Command {
    /// The text of the command.
    pub open spec fn spec_text(&self) -> Seq<char> {
        match self {
            Command::GnvimScroll => "if exists('#User#GnvimScroll') | doautocmd User GnvimScroll | endif"@,
            Command::EchoNotifyParseFailed(err) => "echom \"Failed to parse gnvim notify: '"@ + err@
                + "'\""@,
            Command::EchoTooltipUnsupported => "echom \"Cursor tooltip not supported in this build\""@,
            Command::EchoTooltipStyleFailed(err) => "echom \"Cursor tooltip load style failed: '"@
                + err@ + "'\""@,
        }
    }

    pub fn text(&self) -> (text: String)
        ensures
            text@ == self.spec_text(),
    {
        match self {
            Command::GnvimScroll => {
                "if exists('#User#GnvimScroll') | doautocmd User GnvimScroll | endif".to_owned()
            },
            Command::EchoNotifyParseFailed(err) => {
                let mut text = "echom \"Failed to parse gnvim notify: '".to_owned();
                text.push_str(err.as_str());
                text.push_str("'\"");
                text
            },
            Command::EchoTooltipUnsupported => {
                "echom \"Cursor tooltip not supported in this build\"".to_owned()
            },
            Command::EchoTooltipStyleFailed(err) => {
                let mut text = "echom \"Cursor tooltip load style failed: '".to_owned();
                text.push_str(err.as_str());
                text.push_str("'\"");
                text
            },
        }
    }
}

#[derive(Clone, Copy, Debug, PartialEq, Eq, Structural)]
pub enum MouseButton {
    Left,
    Middle,
    Right,
}

#[derive(Clone, Copy, Debug, PartialEq, Eq, Structural)]
pub enum ScrollDirection {
    Up,
    Down,
    Left,
    Right,
}

/// What the pointer did over a grid.
#[derive(Clone, Copy, Debug, PartialEq, Eq)]
pub enum PointerEvent {
    Press(MouseButton),
    Release(MouseButton),
    Drag(MouseButton),
    Scroll(ScrollDirection),
}

impl MouseButton {
    pub open spec fn spec_name(&self) -> Seq<char> {
        match self {
            MouseButton::Left => "left"@,
            MouseButton::Middle => "middle"@,
            MouseButton::Right => "right"@,
        }
    }

    /// The button as the editor names it.
    pub fn name(&self) -> (name: &'static str)
        ensures
            name@ == self.spec_name(),
    {
        match self {
            MouseButton::Left => "left",
            MouseButton::Middle => "middle",
            MouseButton::Right => "right",
        }
    }
}

impl ScrollDirection {
    pub open spec fn spec_name(&self) -> Seq<char> {
        match self {
            ScrollDirection::Up => "up"@,
            ScrollDirection::Down => "down"@,
            ScrollDirection::Left => "left"@,
            ScrollDirection::Right => "right"@,
        }
    }

    /// The direction as the editor names it.
    pub fn name(&self) -> (name: &'static str)
        ensures
            name@ == self.spec_name(),
    {
        match self {
            ScrollDirection::Up => "up",
            ScrollDirection::Down => "down",
            ScrollDirection::Left => "left",
            ScrollDirection::Right => "right",
        }
    }
}

/// A pointer event over a cell of a grid, as the editor is told of it.
#[derive(Clone, Copy, Debug, PartialEq, Eq)]
pub struct MouseInput {
    pub event: PointerEvent,
    pub grid: i64,
    pub row: i64,
    pub col: i64,
}

impl MouseInput {
    /// The request's button: the button pressed, released or dragged, and
    /// "wheel" for scrolling.
    pub open spec fn spec_button(&self) -> Seq<char> {
        match self.event {
            PointerEvent::Press(button) => button.spec_name(),
            PointerEvent::Release(button) => button.spec_name(),
            PointerEvent::Drag(button) => button.spec_name(),
            PointerEvent::Scroll(_) => "wheel"@,
        }
    }

    /// The request's action: "press", "release" or "drag", and the
    /// direction for scrolling.
    pub open spec fn spec_action(&self) -> Seq<char> {
        match self.event {
            PointerEvent::Press(_) => "press"@,
            PointerEvent::Release(_) => "release"@,
            PointerEvent::Drag(_) => "drag"@,
            PointerEvent::Scroll(direction) => direction.spec_name(),
        }
    }

    pub fn button(&self) -> (name: &'static str)
        ensures
            name@ == self.spec_button(),
    {
        match self.event {
            PointerEvent::Press(button) => button.name(),
            PointerEvent::Release(button) => button.name(),
            PointerEvent::Drag(button) => button.name(),
            PointerEvent::Scroll(_) => "wheel",
        }
    }

    pub fn action(&self) -> (name: &'static str)
        ensures
            name@ == self.spec_action(),
    {
        match self.event {
            PointerEvent::Press(_) => "press",
            PointerEvent::Release(_) => "release",
            PointerEvent::Drag(_) => "drag",
            PointerEvent::Scroll(direction) => direction.name(),
        }
    }

    /// The request's modifier keys: none.
    pub fn modifier(&self) -> (name: &'static str)
        ensures
            name@ == ""@,
    {
        ""
    }
}

/// The pointer events of one grid: what the embedder connects to the
/// grid's surface.
#[derive(Clone, Copy, Debug, PartialEq, Eq)]
pub struct GridEvents {
    pub grid: i64,
}

impl GridEvents {
    /// The request for the editor that a pointer event over the cell
    /// (`row`, `col`) stands for.
    pub open spec fn spec_input(&self, event: PointerEvent, row: u64, col: u64) -> MouseInput {
        MouseInput {
            event,
            grid: self.grid,
            row: clamp_i64(row as int) as i64,
            col: clamp_i64(col as int) as i64,
        }
    }

    pub fn input(&self, event: PointerEvent, row: u64, col: u64) -> (action: Action)
        ensures
            action == Action::InputMouse(self.spec_input(event, row, col)),
    {
        Action::InputMouse(
            MouseInput { event, grid: self.grid, row: to_i64(row as i128), col: to_i64(col as i128) },
        )
    }
}

/// The pointer events of `grid`. Every request made from them names the
/// grid.
pub fn attach_grid_events(grid: &Grid) -> (events: GridEvents)
    ensures
        events == (GridEvents { grid: grid.id }),
{
    GridEvents { grid: grid.id }
}

/// Where the cursor tooltip goes while the popup menu is shown.
#[derive(Clone, Copy, Debug, PartialEq, Eq, Structural)]
pub enum Gravity {
    Up,
    Down,
}

impl Gravity {
    /// The side of the cursor that the popup menu leaves free.
    pub open spec fn spec_beside_popupmenu(above_anchor: bool) -> Gravity {
        if above_anchor {
            Gravity::Down
        } else {
            Gravity::Up
        }
    }

    #[verifier::when_used_as_spec(spec_beside_popupmenu)]
    pub fn beside_popupmenu(above_anchor: bool) -> (gravity: Gravity)
        ensures
            gravity == Gravity::spec_beside_popupmenu(above_anchor),
    {
        if above_anchor {
            Gravity::Down
        } else {
            Gravity::Up
        }
    }
}

/// One thing for the embedder to do.
#[derive(Debug, PartialEq, Eq)]
pub enum Action {
    /// Set the title of the main surface.
    SetTitle(String),
    /// Paint the area around the grids in this colour.
    SetBackground(Color),
    /// Cancel the pending timer of this number.
    CancelResizeTimer(u64),
    /// A grid came into being: make its surface and connect its pointer
    /// events.
    GridCreated(i64),
    /// A grid is gone: drop its surface.
    GridDestroyed(i64),
    /// Put the window of this grid at `rect` and show it.
    WindowPlaced { grid: i64, rect: Rect },
    /// Show the window of this grid in a surface of its own, of this extent.
    WindowExternal { grid: i64, width: i64, height: i64 },
    WindowHidden(i64),
    WindowClosed(i64),
    /// Put the message window over this grid, from `row` down.
    MsgWindowSetPos { grid: i64, row: u64, height: i64 },
    PopupmenuSetItems(Vec<CompletionItem>),
    PopupmenuSetAnchor(Rect),
    PopupmenuSelect(i64),
    PopupmenuShow,
    PopupmenuHide,
    PopupmenuToggleInfo,
    PopupmenuSetWidth(u64),
    PopupmenuSetWidthDetails(u64),
    PopupmenuShowMenuOnAllItems(bool),
    PopupmenuSetFont(Font),
    PopupmenuSetLineSpace(i64),
    PopupmenuSetColors { normal: Style, selected: Style },
    TablineUpdate(TablineUpdate),
    TablineSetFont(Font),
    TablineSetLineSpace(i64),
    TablineSetColors { normal: Style, selected: Style, fill: Style },
    CmdlineShow(CmdlineShow),
    CmdlineHide,
    CmdlineSetPos(CmdlinePos),
    CmdlineSpecialChar(CmdlineSpecialChar),
    CmdlineBlockShow(CmdlineBlockShow),
    CmdlineBlockAppend(CmdlineBlockAppend),
    CmdlineBlockHide,
    CmdlineSetFont(Font),
    CmdlineSetLineSpace(i64),
    CmdlineSetColors { normal: Style, border: Style },
    WildmenuShow(Vec<String>),
    WildmenuHide,
    WildmenuSelect(i64),
    WildmenuSetColors { normal: Style, selected: Style },
    /// Load the tooltip's style from this path, and report a failure with
    /// [`crate::state::UIState::tooltip_style_failed`].
    TooltipLoadStyle(String),
    TooltipShow(String),
    TooltipMoveTo(Rect),
    TooltipHide,
    TooltipSetStyle(String),
    TooltipSetColors { fg: Color, bg: Color },
    TooltipSetFont(Font),
    /// Move the tooltip to the side that [`Gravity::beside_popupmenu`]
    /// gives for the popup menu's place.
    TooltipAvoidPopupmenu,
    /// Let the tooltip choose its side again.
    TooltipReleaseGravity,
    /// Ask the editor to resize its screen.
    ResizeScreen { cols: i64, rows: i64 },
    /// Ask the editor to resize one grid.
    ResizeGrid { grid: i64, cols: i64, rows: i64 },
    /// Tell the editor of a pointer event.
    InputMouse(MouseInput),
    /// Have the editor execute a command line.
    Command(Command),
}

impl Action {
    /// Whether the action hands a font, a line spacing or colours on to an
    /// auxiliary surface.
    pub open spec fn is_propagation(self) -> bool {
        ||| self is PopupmenuSetFont
        ||| self is PopupmenuSetLineSpace
        ||| self is PopupmenuSetColors
        ||| self is TablineSetFont
        ||| self is TablineSetLineSpace
        ||| self is TablineSetColors
        ||| self is CmdlineSetFont
        ||| self is CmdlineSetLineSpace
        ||| self is CmdlineSetColors
        ||| self is WildmenuSetColors
        ||| self is TooltipSetFont
    }
}

} // verus!
