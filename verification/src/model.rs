//! The synchronisation state as a mathematical value, and what each event
//! makes of it.
//!
//! Every function here is a spec function: it says which state and which
//! actions follow from a state and an event. The executable state in
//! [`crate::state`] is proved to do exactly this.

use crate::action::{Action, Command};
use crate::color::{HlDefsView, HlGroup};
use crate::error::ProtocolError;
use crate::event::{
    CmdlineBlockAppend, CmdlineBlockShow, CmdlinePos, CmdlineShow, CmdlineSpecialChar,
    DefaultColorsSet, GnvimEvent, GridCursorGoto, GridResize, GridScroll, HlAttrDefine, HlGroupSet,
    ModeChange, ModeInfoSet, MsgSetPos, Notify, OptionSet, PopupmenuShow, RedrawEvent,
    TablineUpdate, WildmenuShow, WindowExternalPos, WindowFloatPos, WindowPos,
};
use crate::font::{Font, ResizeOptions};
use crate::geometry::clamp_px;
use crate::grid::{lemma_put_line_wf, GridLineSegment, GridView};
use crate::mode::ModeInfo;
use crate::window::{
    float_rect, float_resize, msg_height, normal_rect, offset_rect, Window, WindowKind,
};
use vstd::prelude::*;

verus! {

/// The base grid: it exists from the start and is never destroyed.
pub const BASE_GRID: i64 = 1;

/// The state of the cursor tooltip.
#[derive(Clone, Copy, Debug, PartialEq, Eq)]
pub struct CursorTooltip {
    pub visible: bool,
}

/// A request to resize the editor's screen that waits for its timer.
#[derive(Clone, Copy, Debug, PartialEq, Eq)]
pub struct PendingResize {
    pub timer: u64,
    pub cols: i64,
    pub rows: i64,
}

/// The whole state as a mathematical value.
pub struct Model {
    pub grids: Map<i64, GridView>,
    pub windows: Map<i64, Window>,
    pub hl_defs: HlDefsView,
    pub mode_infos: Seq<ModeInfo>,
    pub current_mode: Option<ModeInfo>,
    pub current_grid: i64,
    /// `None` where this build has no cursor tooltip.
    pub cursor_tooltip: Option<CursorTooltip>,
    /// The delayed resize request, if one waits.
    pub resize_source_id: Option<PendingResize>,
    /// What the next flush has to apply, if anything.
    pub resize_on_flush: Option<ResizeOptions>,
    pub hl_groups_changed: bool,
    pub font: Font,
    pub line_space: i64,
    /// The font that stands in where an option names none.
    pub default_font: Font,
}

/// What one event leads to.
pub struct Step {
    pub model: Model,
    pub actions: Seq<Action>,
}

/// What a batch of events leads to. Where `error` is set, the batch went
/// as far as the event that caused it, and that event changed nothing.
pub struct Batch {
    pub model: Model,
    pub actions: Seq<Action>,
    pub error: Option<ProtocolError>,
}

/// Whether `name` stands for a group: it is one of the six names that the
/// auxiliary surfaces draw with.
pub open spec fn names_group(name: Seq<char>) -> bool {
    ||| name == "Pmenu"@
    ||| name == "PmenuSel"@
    ||| name == "TabLine"@
    ||| name == "TabLineSel"@
    ||| name == "TabLineFill"@
    ||| name == "Normal"@
}

/// The group bindings that a group-set event for `name` makes. Names that
/// stand for no group bind nothing.
pub open spec fn bind_named(hl: HlDefsView, name: Seq<char>, id: u64) -> HlDefsView {
    if name == "Pmenu"@ {
        hl.bind(HlGroup::Pmenu, id).bind(HlGroup::Wildmenu, id)
    } else if name == "PmenuSel"@ {
        hl.bind(HlGroup::PmenuSel, id).bind(HlGroup::WildmenuSel, id)
    } else if name == "TabLine"@ {
        hl.bind(HlGroup::Tabline, id)
    } else if name == "TabLineSel"@ {
        hl.bind(HlGroup::TablineSel, id).bind(HlGroup::CmdlineBorder, id)
    } else if name == "TabLineFill"@ {
        hl.bind(HlGroup::TablineFill, id)
    } else if name == "Normal"@ {
        hl.bind(HlGroup::Cmdline, id)
    } else {
        hl
    }
}

/// The actions that hand a font and a line spacing on to the auxiliary
/// surfaces.
pub open spec fn font_actions(opts: ResizeOptions, tooltip: bool) -> Seq<Action> {
    seq![
        Action::PopupmenuSetFont(opts.font),
        Action::CmdlineSetFont(opts.font),
        Action::TablineSetFont(opts.font),
    ] + (if tooltip {
        seq![Action::TooltipSetFont(opts.font)]
    } else {
        Seq::<Action>::empty()
    }) + seq![
        Action::CmdlineSetLineSpace(opts.line_space),
        Action::PopupmenuSetLineSpace(opts.line_space),
        Action::TablineSetLineSpace(opts.line_space),
    ]
}

/// The actions that hand the colours of the groups on to the auxiliary
/// surfaces.
pub open spec fn color_actions(hl: HlDefsView) -> Seq<Action> {
    seq![
        Action::PopupmenuSetColors {
            normal: hl.group_style(HlGroup::Pmenu),
            selected: hl.group_style(HlGroup::PmenuSel),
        },
        Action::TablineSetColors {
            normal: hl.group_style(HlGroup::Tabline),
            selected: hl.group_style(HlGroup::TablineSel),
            fill: hl.group_style(HlGroup::TablineFill),
        },
        Action::CmdlineSetColors {
            normal: hl.group_style(HlGroup::Cmdline),
            border: hl.group_style(HlGroup::CmdlineBorder),
        },
        Action::WildmenuSetColors {
            normal: hl.group_style(HlGroup::Wildmenu),
            selected: hl.group_style(HlGroup::WildmenuSel),
        },
    ]
}

impl Model {
    /// The base grid and the current grid exist; every grid is well formed
    /// and stored under its own id; the current grid is active and no
    /// other; definition 0 of the highlight table carries the defaults.
    pub open spec fn wf(self) -> bool {
        &&& self.grids.dom().finite()
        &&& self.windows.dom().finite()
        &&& self.grids.contains_key(BASE_GRID)
        &&& self.grids.contains_key(self.current_grid)
        &&& forall|k: i64| #[trigger] self.grids.contains_key(k) ==> self.grid_ok(k)
        &&& self.hl_defs.wf()
    }

    /// The grid stored under `k` is well formed, knows itself as `k`, and
    /// is active exactly if it is the current grid.
    pub open spec fn grid_ok(self, k: i64) -> bool {
        &&& self.grids[k].wf()
        &&& self.grids[k].id == k
        &&& (self.grids[k].active <==> k == self.current_grid)
    }

    /// The state before any event: the base grid of the given size, which
    /// is current and active.
    pub open spec fn initial(font: Font, line_space: i64, width: u64, height: u64, tooltip: bool) -> Model {
        Model {
            grids: Map::empty().insert(
                BASE_GRID,
                GridView::new(BASE_GRID, font, line_space, width, height).set_active(true),
            ),
            windows: Map::empty(),
            hl_defs: HlDefsView::initial(),
            mode_infos: Seq::empty(),
            current_mode: None,
            current_grid: BASE_GRID,
            cursor_tooltip: if tooltip {
                Some(CursorTooltip { visible: false })
            } else {
                None
            },
            resize_source_id: None,
            resize_on_flush: None,
            hl_groups_changed: false,
            font,
            line_space,
            default_font: font,
        }
    }

    /// The state unchanged, with these actions.
    pub open spec fn emit(self, actions: Seq<Action>) -> Result<Step, ProtocolError> {
        Ok(Step { model: self, actions })
    }

    /// This state, with no action.
    pub open spec fn quiet(self) -> Result<Step, ProtocolError> {
        Ok(Step { model: self, actions: Seq::empty() })
    }

    pub open spec fn set_title(self, title: String) -> Result<Step, ProtocolError> {
        self.emit(seq![Action::SetTitle(title)])
    }

    /// The cursor goes to a cell of `e.grid`, which becomes the current
    /// grid. Where that is another grid than before, the grid that was
    /// current is no longer active and its cursor row is dirty.
    pub open spec fn grid_cursor_goto(self, e: GridCursorGoto) -> Result<Step, ProtocolError> {
        if !self.grids.contains_key(e.grid) {
            Err(ProtocolError::UnknownGrid(e.grid))
        } else if e.grid == self.current_grid {
            Model {
                grids: self.grids.insert(e.grid, self.grids[e.grid].cursor_goto(e.row, e.col)),
                ..self
            }.quiet()
        } else {
            Model {
                grids: self.grids.insert(
                    self.current_grid,
                    self.grids[self.current_grid].set_active(false).tick(),
                ).insert(e.grid, self.grids[e.grid].set_active(true).cursor_goto(e.row, e.col)),
                current_grid: e.grid,
                ..self
            }.quiet()
        }
    }

    /// The grid as a resize event first makes it: empty, in the current
    /// font and mode.
    pub open spec fn fresh_grid(self, e: GridResize) -> GridView {
        let grid = GridView::new(e.grid, self.font, self.line_space, e.width, e.height);
        match self.current_mode {
            Some(mode) => grid.set_mode(mode),
            None => grid,
        }
    }

    /// A grid that exists takes the new size; one that does not comes into
    /// being.
    pub open spec fn grid_resize(self, e: GridResize) -> Result<Step, ProtocolError> {
        if self.grids.contains_key(e.grid) {
            Model {
                grids: self.grids.insert(e.grid, self.grids[e.grid].resize(e.width, e.height)),
                ..self
            }.quiet()
        } else {
            Model { grids: self.grids.insert(e.grid, self.fresh_grid(e)), ..self }.emit(
                seq![Action::GridCreated(e.grid)],
            )
        }
    }

    pub open spec fn grid_line(self, line: GridLineSegment) -> Result<Step, ProtocolError> {
        if !self.grids.contains_key(line.grid) {
            Err(ProtocolError::UnknownGrid(line.grid))
        } else if !self.grids[line.grid].line_fits(line.row, line.col_start, line.cells@) {
            Err(ProtocolError::LineOutOfBounds { grid: line.grid, row: line.row })
        } else {
            Model {
                grids: self.grids.insert(
                    line.grid,
                    self.grids[line.grid].put_line(line.row, line.col_start, line.cells@),
                ),
                ..self
            }.quiet()
        }
    }

    pub open spec fn grid_clear(self, grid: i64) -> Result<Step, ProtocolError> {
        if !self.grids.contains_key(grid) {
            Err(ProtocolError::UnknownGrid(grid))
        } else {
            Model { grids: self.grids.insert(grid, self.grids[grid].clear()), ..self }.quiet()
        }
    }

    /// The grid is gone. Where it was the current grid, the base grid is
    /// current and active. The base grid itself cannot be destroyed.
    pub open spec fn grid_destroy(self, grid: i64) -> Result<Step, ProtocolError> {
        if grid == BASE_GRID {
            Err(ProtocolError::BaseGridDestroyed)
        } else if !self.grids.contains_key(grid) {
            Err(ProtocolError::UnknownGrid(grid))
        } else if grid == self.current_grid {
            Model {
                grids: self.grids.remove(grid).insert(
                    BASE_GRID,
                    self.grids[BASE_GRID].set_active(true),
                ),
                current_grid: BASE_GRID,
                ..self
            }.emit(seq![Action::GridDestroyed(grid)])
        } else {
            Model { grids: self.grids.remove(grid), ..self }.emit(seq![Action::GridDestroyed(grid)])
        }
    }

    pub open spec fn grid_scroll(self, e: GridScroll) -> Result<Step, ProtocolError> {
        if !self.grids.contains_key(e.grid) {
            Err(ProtocolError::UnknownGrid(e.grid))
        } else if !self.grids[e.grid].region_ok(e.top, e.bot, e.left, e.right) {
            Err(ProtocolError::ScrollRegionOutOfBounds { grid: e.grid })
        } else {
            Model {
                grids: self.grids.insert(
                    e.grid,
                    self.grids[e.grid].scroll(e.top, e.bot, e.left, e.right, e.rows, e.cols),
                ),
                ..self
            }.emit(seq![Action::Command(Command::GnvimScroll)])
        }
    }

    /// New default colours: definition 0 follows them, every grid is
    /// displayed anew at the next flush, and the surroundings take the new
    /// background.
    pub open spec fn default_colors_set(self, e: DefaultColorsSet) -> Result<Step, ProtocolError> {
        Model {
            hl_defs: self.hl_defs.set_defaults(e.fg, e.bg, e.sp),
            grids: self.grids.map_values(|g: GridView| g.redraw()),
            ..self
        }.emit(
            (if self.cursor_tooltip is Some {
                seq![Action::TooltipSetColors { fg: e.fg, bg: e.bg }]
            } else {
                Seq::<Action>::empty()
            }) + seq![Action::SetBackground(e.bg)],
        )
    }

    pub open spec fn hl_attr_define(self, e: HlAttrDefine) -> Result<Step, ProtocolError> {
        Model { hl_defs: self.hl_defs.define(e.id, e.hl), ..self }.quiet()
    }

    /// The groups that `e.name` stands for point at `e.hl_id`, and the next
    /// flush hands the groups' colours on. A name that stands for no group
    /// is ignored: nothing is bound, and whether colours wait for the flush
    /// stays as it was.
    pub open spec fn hl_group_set(self, e: HlGroupSet) -> Result<Step, ProtocolError> {
        Model {
            hl_defs: bind_named(self.hl_defs, e.name@, e.hl_id),
            hl_groups_changed: self.hl_groups_changed || names_group(e.name@),
            ..self
        }.quiet()
    }

    /// What the next flush has to apply, before this option: what is
    /// already asked for, or else what the base grid has.
    pub open spec fn resize_intent(self) -> ResizeOptions {
        match self.resize_on_flush {
            Some(opts) => opts,
            None => ResizeOptions {
                font: self.grids[BASE_GRID].font,
                line_space: self.grids[BASE_GRID].line_space,
            },
        }
    }

    /// A font or a line spacing is asked for: the next flush applies it.
    /// The later of two values for one option replaces the earlier.
    pub open spec fn option_set(self, opt: OptionSet) -> Result<Step, ProtocolError> {
        match opt {
            OptionSet::GuiFont(named) => {
                let font = match named {
                    Some(font) => font,
                    None => self.default_font,
                };
                Model {
                    font,
                    resize_on_flush: Some(ResizeOptions { font, ..self.resize_intent() }),
                    ..self
                }.quiet()
            },
            OptionSet::LineSpace(line_space) => Model {
                line_space,
                resize_on_flush: Some(ResizeOptions { line_space, ..self.resize_intent() }),
                ..self
            }.quiet(),
            OptionSet::NotSupported(_) => self.quiet(),
        }
    }

    pub open spec fn mode_info_set(self, e: ModeInfoSet) -> Result<Step, ProtocolError> {
        Model { mode_infos: e.mode_info@, ..self }.quiet()
    }

    /// The mode at `e.index` of the mode table becomes the current mode of
    /// the state and of every grid.
    pub open spec fn mode_change(self, e: ModeChange) -> Result<Step, ProtocolError> {
        if e.index >= self.mode_infos.len() {
            Err(ProtocolError::ModeIndexOutOfRange(e.index))
        } else {
            let mode = self.mode_infos[e.index as int];
            Model {
                current_mode: Some(mode),
                grids: self.grids.map_values(|g: GridView| g.set_mode(mode)),
                ..self
            }.quiet()
        }
    }

    pub open spec fn set_busy(self, busy: bool) -> Result<Step, ProtocolError> {
        Model { grids: self.grids.map_values(|g: GridView| g.set_busy(busy)), ..self }.quiet()
    }

    /// The grids after a flush: every grid displayed, and, where a font or
    /// a line spacing waits, every grid in that font and spacing.
    pub open spec fn flushed_grids(self) -> Map<i64, GridView> {
        match self.resize_on_flush {
            Some(opts) => self.grids.map_values(
                |g: GridView| g.flush(self.hl_defs).update_cell_metrics(opts.font, opts.line_space),
            ),
            None => self.grids.map_values(|g: GridView| g.flush(self.hl_defs)),
        }
    }

    /// The screen size to ask the editor for after a flush that applied a
    /// font or a line spacing: the cells that the base grid's surface has
    /// room for, where that is not the base grid's size already.
    pub open spec fn resize_request(self) -> Seq<Action> {
        let base = self.flushed_grids()[BASE_GRID];
        let (cols, rows) = base.calc_size();
        if cols != base.width || rows != base.height {
            seq![Action::ResizeScreen { cols: cols as i64, rows: rows as i64 }]
        } else {
            Seq::empty()
        }
    }

    /// The commit. Every grid displays its dirty rows. Where a font or a
    /// line spacing waits: a pending resize timer is cancelled, every grid
    /// takes the new metrics, the editor is asked for the screen size that
    /// now fits, and the auxiliary surfaces get the font and the spacing.
    /// Where group bindings changed: the auxiliary surfaces get the
    /// groups' colours.
    pub open spec fn flush(self) -> Result<Step, ProtocolError> {
        let resize = match self.resize_on_flush {
            Some(opts) => (match self.resize_source_id {
                Some(pending) => seq![Action::CancelResizeTimer(pending.timer)],
                None => Seq::<Action>::empty(),
            }) + self.resize_request() + font_actions(opts, self.cursor_tooltip is Some),
            None => Seq::<Action>::empty(),
        };
        let colors = if self.hl_groups_changed {
            color_actions(self.hl_defs)
        } else {
            Seq::<Action>::empty()
        };
        Model {
            grids: self.flushed_grids(),
            resize_source_id: if self.resize_on_flush is Some {
                None
            } else {
                self.resize_source_id
            },
            resize_on_flush: None,
            hl_groups_changed: false,
            ..self
        }.emit(resize + colors)
    }

    /// The popup menu gets its items and is shown at the given cell of the
    /// current grid, moved by the corner of the window of `e.grid`. A
    /// visible tooltip makes way.
    pub open spec fn popupmenu_show(self, e: PopupmenuShow) -> Result<Step, ProtocolError> {
        if !self.windows.contains_key(e.grid) {
            Err(ProtocolError::UnknownWindow(e.grid))
        } else {
            let rect = offset_rect(
                self.grids[self.current_grid].rect_for_cell(e.row, e.col),
                self.windows[e.grid],
            );
            self.emit(
                seq![
                    Action::PopupmenuSetItems(e.items),
                    Action::PopupmenuSetAnchor(rect),
                    Action::PopupmenuSelect(e.selected),
                    Action::PopupmenuShow,
                ] + (if self.cursor_tooltip == Some(CursorTooltip { visible: true }) {
                    seq![Action::TooltipAvoidPopupmenu]
                } else {
                    Seq::<Action>::empty()
                }),
            )
        }
    }

    pub open spec fn popupmenu_hide(self) -> Result<Step, ProtocolError> {
        self.emit(
            seq![Action::PopupmenuHide] + (if self.cursor_tooltip is Some {
                seq![Action::TooltipReleaseGravity]
            } else {
                Seq::<Action>::empty()
            }),
        )
    }

    pub open spec fn popupmenu_select(self, selected: i64) -> Result<Step, ProtocolError> {
        self.emit(seq![Action::PopupmenuSelect(selected)])
    }

    pub open spec fn tabline_update(self, e: TablineUpdate) -> Result<Step, ProtocolError> {
        self.emit(seq![Action::TablineUpdate(e)])
    }

    pub open spec fn cmdline_show(self, e: CmdlineShow) -> Result<Step, ProtocolError> {
        self.emit(seq![Action::CmdlineShow(e)])
    }

    pub open spec fn cmdline_hide(self) -> Result<Step, ProtocolError> {
        self.emit(seq![Action::CmdlineHide])
    }

    pub open spec fn cmdline_pos(self, e: CmdlinePos) -> Result<Step, ProtocolError> {
        self.emit(seq![Action::CmdlineSetPos(e)])
    }

    pub open spec fn cmdline_special_char(self, e: CmdlineSpecialChar) -> Result<Step, ProtocolError> {
        self.emit(seq![Action::CmdlineSpecialChar(e)])
    }

    pub open spec fn cmdline_block_show(self, e: CmdlineBlockShow) -> Result<Step, ProtocolError> {
        self.emit(seq![Action::CmdlineBlockShow(e)])
    }

    pub open spec fn cmdline_block_append(self, e: CmdlineBlockAppend) -> Result<Step, ProtocolError> {
        self.emit(seq![Action::CmdlineBlockAppend(e)])
    }

    pub open spec fn cmdline_block_hide(self) -> Result<Step, ProtocolError> {
        self.emit(seq![Action::CmdlineBlockHide])
    }

    pub open spec fn wildmenu_show(self, e: WildmenuShow) -> Result<Step, ProtocolError> {
        self.emit(seq![Action::WildmenuShow(e.0)])
    }

    pub open spec fn wildmenu_hide(self) -> Result<Step, ProtocolError> {
        self.emit(seq![Action::WildmenuHide])
    }

    pub open spec fn wildmenu_select(self, item: i64) -> Result<Step, ProtocolError> {
        self.emit(seq![Action::WildmenuSelect(item)])
    }

    /// The window of `grid` as it is before a position event: the one that
    /// exists, or else a new one for the editor's window `handle`.
    pub open spec fn window_or_new(self, grid: i64, handle: i64, kind: WindowKind) -> Window {
        if self.windows.contains_key(grid) {
            self.windows[grid]
        } else {
            Window::spec_new(grid, handle, kind)
        }
    }

    /// A normal window is placed by cells of the base grid, and its grid
    /// takes the window's size.
    pub open spec fn window_pos(self, e: WindowPos) -> Result<Step, ProtocolError> {
        if !self.grids.contains_key(e.grid) {
            Err(ProtocolError::UnknownGrid(e.grid))
        } else {
            let rect = normal_rect(
                self.grids[BASE_GRID].metrics(),
                e.start_row,
                e.start_col,
                e.width,
                e.height,
            );
            Model {
                windows: self.windows.insert(
                    e.grid,
                    self.window_or_new(e.grid, e.win, WindowKind::Normal).placed(
                        WindowKind::Normal,
                        rect,
                    ),
                ),
                grids: self.grids.insert(e.grid, self.grids[e.grid].resize(e.width, e.height)),
                ..self
            }.emit(seq![Action::WindowPlaced { grid: e.grid, rect }])
        }
    }

    /// Where the floating window of `e` goes. The anchor grid's window
    /// gives the offset, except for the base grid, which lies at the
    /// origin.
    pub open spec fn float_place(self, e: WindowFloatPos) -> crate::geometry::Rect {
        float_rect(
            e.anchor,
            if e.anchor_grid == BASE_GRID {
                0
            } else {
                self.windows[e.anchor_grid].x
            },
            if e.anchor_grid == BASE_GRID {
                0
            } else {
                self.windows[e.anchor_grid].y
            },
            self.grids[e.anchor_grid].metrics(),
            e.anchor_row,
            e.anchor_col,
            self.grids[e.grid].metrics(),
        )
    }

    /// A floating window is placed at its anchor. Where it then reaches
    /// past the base grid, the editor is asked to shrink its grid.
    pub open spec fn window_float_pos(self, e: WindowFloatPos) -> Result<Step, ProtocolError> {
        if !self.grids.contains_key(e.anchor_grid) {
            Err(ProtocolError::UnknownGrid(e.anchor_grid))
        } else if e.anchor_grid != BASE_GRID && !self.windows.contains_key(e.anchor_grid) {
            Err(ProtocolError::UnknownWindow(e.anchor_grid))
        } else if !self.grids.contains_key(e.grid) {
            Err(ProtocolError::UnknownGrid(e.grid))
        } else {
            let rect = self.float_place(e);
            let request = match float_resize(
                self.grids[e.grid].metrics(),
                self.grids[BASE_GRID].metrics(),
                rect.x,
                rect.y,
            ) {
                Some((cols, rows)) => seq![Action::ResizeGrid { grid: e.grid, cols, rows }],
                None => Seq::<Action>::empty(),
            };
            Model {
                windows: self.windows.insert(
                    e.grid,
                    self.window_or_new(e.grid, e.win, WindowKind::Floating).placed(
                        WindowKind::Floating,
                        rect,
                    ),
                ),
                ..self
            }.emit(request + seq![Action::WindowPlaced { grid: e.grid, rect }])
        }
    }

    /// An external window takes the extent of its grid.
    pub open spec fn window_external_pos(self, e: WindowExternalPos) -> Result<Step, ProtocolError> {
        if !self.grids.contains_key(e.grid) {
            Err(ProtocolError::UnknownGrid(e.grid))
        } else {
            let width = clamp_px(self.grids[e.grid].metrics().spec_width()) as i64;
            let height = clamp_px(self.grids[e.grid].metrics().spec_height()) as i64;
            Model {
                windows: self.windows.insert(
                    e.grid,
                    self.window_or_new(e.grid, e.win, WindowKind::External).external(width, height),
                ),
                ..self
            }.emit(seq![Action::WindowExternal { grid: e.grid, width, height }])
        }
    }

    pub open spec fn window_hide(self, grid: i64) -> Result<Step, ProtocolError> {
        if !self.windows.contains_key(grid) {
            Err(ProtocolError::UnknownWindow(grid))
        } else {
            Model { windows: self.windows.insert(grid, self.windows[grid].hidden()), ..self }.emit(
                seq![Action::WindowHidden(grid)],
            )
        }
    }

    pub open spec fn window_close(self, grid: i64) -> Result<Step, ProtocolError> {
        if !self.windows.contains_key(grid) {
            Err(ProtocolError::UnknownWindow(grid))
        } else {
            Model { windows: self.windows.remove(grid), ..self }.emit(
                seq![Action::WindowClosed(grid)],
            )
        }
    }

    /// The message window covers the base grid from `e.row` down.
    pub open spec fn msg_set_pos(self, e: MsgSetPos) -> Result<Step, ProtocolError> {
        if !self.grids.contains_key(e.grid) {
            Err(ProtocolError::UnknownGrid(e.grid))
        } else {
            self.emit(
                seq![
                    Action::MsgWindowSetPos {
                        grid: e.grid,
                        row: e.row,
                        height: msg_height(self.grids[BASE_GRID].metrics(), e.row) as i64,
                    },
                ],
            )
        }
    }

    /// What one redraw event leads to.
    #[verifier::opaque]
    pub open spec fn redraw(self, event: RedrawEvent) -> Result<Step, ProtocolError> {
        match event {
            RedrawEvent::SetTitle(title) => self.set_title(title),
            RedrawEvent::GridLine(line) => self.grid_line(line),
            RedrawEvent::GridCursorGoto(e) => self.grid_cursor_goto(e),
            RedrawEvent::GridResize(e) => self.grid_resize(e),
            RedrawEvent::GridClear(grid) => self.grid_clear(grid),
            RedrawEvent::GridDestroy(grid) => self.grid_destroy(grid),
            RedrawEvent::GridScroll(e) => self.grid_scroll(e),
            RedrawEvent::DefaultColorsSet(e) => self.default_colors_set(e),
            RedrawEvent::HlAttrDefine(e) => self.hl_attr_define(e),
            RedrawEvent::HlGroupSet(e) => self.hl_group_set(e),
            RedrawEvent::OptionSet(opt) => self.option_set(opt),
            RedrawEvent::ModeInfoSet(e) => self.mode_info_set(e),
            RedrawEvent::ModeChange(e) => self.mode_change(e),
            RedrawEvent::SetBusy(busy) => self.set_busy(busy),
            RedrawEvent::Flush => self.flush(),
            RedrawEvent::PopupmenuShow(e) => self.popupmenu_show(e),
            RedrawEvent::PopupmenuHide => self.popupmenu_hide(),
            RedrawEvent::PopupmenuSelect(selected) => self.popupmenu_select(selected),
            RedrawEvent::TablineUpdate(e) => self.tabline_update(e),
            RedrawEvent::CmdlineShow(e) => self.cmdline_show(e),
            RedrawEvent::CmdlineHide => self.cmdline_hide(),
            RedrawEvent::CmdlinePos(e) => self.cmdline_pos(e),
            RedrawEvent::CmdlineSpecialChar(e) => self.cmdline_special_char(e),
            RedrawEvent::CmdlineBlockShow(e) => self.cmdline_block_show(e),
            RedrawEvent::CmdlineBlockAppend(e) => self.cmdline_block_append(e),
            RedrawEvent::CmdlineBlockHide => self.cmdline_block_hide(),
            RedrawEvent::WildmenuShow(e) => self.wildmenu_show(e),
            RedrawEvent::WildmenuHide => self.wildmenu_hide(),
            RedrawEvent::WildmenuSelect(item) => self.wildmenu_select(item),
            RedrawEvent::WindowPos(e) => self.window_pos(e),
            RedrawEvent::WindowFloatPos(e) => self.window_float_pos(e),
            RedrawEvent::WindowExternalPos(e) => self.window_external_pos(e),
            RedrawEvent::WindowHide(grid) => self.window_hide(grid),
            RedrawEvent::WindowClose(grid) => self.window_close(grid),
            RedrawEvent::MsgSetPos(e) => self.msg_set_pos(e),
            RedrawEvent::Ignored(_) => self.quiet(),
            RedrawEvent::Unknown(_) => self.quiet(),
        }
    }

    /// What an event of the client's own protocol leads to. Without a
    /// tooltip, every tooltip event only tells the user so.
    pub open spec fn gnvim(self, event: GnvimEvent) -> Step {
        match event {
            GnvimEvent::CompletionMenuToggleInfo => Step {
                model: self,
                actions: seq![Action::PopupmenuToggleInfo],
            },
            GnvimEvent::PopupmenuWidth(width) => Step {
                model: self,
                actions: seq![Action::PopupmenuSetWidth(width)],
            },
            GnvimEvent::PopupmenuWidthDetails(width) => Step {
                model: self,
                actions: seq![Action::PopupmenuSetWidthDetails(width)],
            },
            GnvimEvent::PopupmenuShowMenuOnAllItems(show) => Step {
                model: self,
                actions: seq![Action::PopupmenuShowMenuOnAllItems(show)],
            },
            GnvimEvent::Unknown(_) => Step { model: self, actions: Seq::empty() },
            GnvimEvent::CursorTooltipLoadStyle(path) => if self.cursor_tooltip is Some {
                Step { model: self, actions: seq![Action::TooltipLoadStyle(path)] }
            } else {
                self.tooltip_unsupported()
            },
            GnvimEvent::CursorTooltipShow(content, row, col) => if self.cursor_tooltip is Some {
                Step {
                    model: Model { cursor_tooltip: Some(CursorTooltip { visible: true }), ..self },
                    actions: seq![
                        Action::TooltipShow(content),
                        Action::TooltipMoveTo(self.grids[self.current_grid].rect_for_cell(row, col)),
                    ],
                }
            } else {
                self.tooltip_unsupported()
            },
            GnvimEvent::CursorTooltipHide => if self.cursor_tooltip is Some {
                Step {
                    model: Model { cursor_tooltip: Some(CursorTooltip { visible: false }), ..self },
                    actions: seq![Action::TooltipHide],
                }
            } else {
                self.tooltip_unsupported()
            },
            GnvimEvent::CursorTooltipSetStyle(style) => if self.cursor_tooltip is Some {
                Step { model: self, actions: seq![Action::TooltipSetStyle(style)] }
            } else {
                self.tooltip_unsupported()
            },
        }
    }

    /// The answer to a tooltip event where there is no tooltip.
    pub open spec fn tooltip_unsupported(self) -> Step {
        Step { model: self, actions: seq![Action::Command(Command::EchoTooltipUnsupported)] }
    }

    /// What a batch of redraw events leads to: each event applied to what
    /// the events before it left, and its actions after theirs. The first
    /// event that violates the protocol ends the batch.
    pub open spec fn batch(self, events: Seq<RedrawEvent>) -> Batch
        decreases events.len(),
    {
        if events.len() == 0 {
            Batch { model: self, actions: Seq::empty(), error: None }
        } else {
            match self.redraw(events[0]) {
                Err(error) => Batch { model: self, actions: Seq::empty(), error: Some(error) },
                Ok(step) => {
                    let rest = step.model.batch(events.drop_first());
                    Batch {
                        model: rest.model,
                        actions: step.actions + rest.actions,
                        error: rest.error,
                    }
                },
            }
        }
    }

    /// What one notification leads to.
    pub open spec fn notify(self, notify: Notify) -> Batch {
        match notify {
            Notify::RedrawEvent(events) => self.batch(events@),
            Notify::GnvimEvent(Ok(event)) => Batch {
                model: self.gnvim(event).model,
                actions: self.gnvim(event).actions,
                error: None,
            },
            Notify::GnvimEvent(Err(err)) => Batch {
                model: self,
                actions: seq![Action::Command(Command::EchoNotifyParseFailed(err))],
                error: None,
            },
        }
    }

    /// A resize of the editor's screen is to be asked for when `timer`
    /// fires. A request that already waits is replaced, and its timer
    /// cancelled.
    pub open spec fn schedule_resize(self, timer: u64, cols: i64, rows: i64) -> Step {
        Step {
            model: Model {
                resize_source_id: Some(PendingResize { timer, cols, rows }),
                ..self
            },
            actions: match self.resize_source_id {
                Some(pending) => seq![Action::CancelResizeTimer(pending.timer)],
                None => Seq::empty(),
            },
        }
    }

    /// The timer `timer` fired. Where its request still waits, the request
    /// goes out and nothing waits any more; a timer whose request was
    /// replaced or cancelled does nothing.
    pub open spec fn resize_timer_fired(self, timer: u64) -> Step {
        match self.resize_source_id {
            Some(pending) => if pending.timer == timer {
                Step {
                    model: Model { resize_source_id: None, ..self },
                    actions: seq![Action::ResizeScreen { cols: pending.cols, rows: pending.rows }],
                }
            } else {
                Step { model: self, actions: Seq::empty() }
            },
            None => Step { model: self, actions: Seq::empty() },
        }
    }

    /// The embedder gave the surface of `grid` this extent.
    pub open spec fn set_grid_allocation(self, grid: i64, width: u32, height: u32) -> Result<
        Step,
        ProtocolError,
    > {
        if !self.grids.contains_key(grid) {
            Err(ProtocolError::UnknownGrid(grid))
        } else {
            Model {
                grids: self.grids.insert(grid, self.grids[grid].set_allocation(width, height)),
                ..self
            }.quiet()
        }
    }
}

/// A state stays well formed where one grid is replaced by a grid that is
/// well formed, has the same id, and is active exactly where it is current.
pub proof fn lemma_replace_grid_wf(m: Model, k: i64, grid: GridView)
    requires
        m.wf(),
        grid.wf(),
        grid.id == k,
        grid.active <==> k == m.current_grid,
    ensures
        (Model { grids: m.grids.insert(k, grid), ..m }).wf(),
{
    let after = Model { grids: m.grids.insert(k, grid), ..m };
    assert forall|j: i64| #[trigger] after.grids.contains_key(j) implies after.grid_ok(j) by {
        if j != k {
            assert(m.grids.contains_key(j));
        }
    }
}

/// A state stays well formed where every grid is changed in a way that
/// keeps a grid well formed and leaves its id and its activity alone.
pub proof fn lemma_map_grids_wf(m: Model, f: spec_fn(GridView) -> GridView)
    requires
        m.wf(),
        forall|g: GridView|
            g.wf() ==> {
                &&& (#[trigger] f(g)).wf()
                &&& f(g).id == g.id
                &&& f(g).active == g.active
            },
    ensures
        (Model { grids: m.grids.map_values(f), ..m }).wf(),
{
    let after = Model { grids: m.grids.map_values(f), ..m };
    assert(after.grids.dom() =~= m.grids.dom());
    assert forall|j: i64| #[trigger] after.grids.contains_key(j) implies after.grid_ok(j) by {
        assert(m.grids.contains_key(j));
        assert(after.grids[j] == f(m.grids[j]));
    }
}

pub proof fn lemma_grid_cursor_goto_wf(m: Model, e: GridCursorGoto)
    requires
        m.wf(),
    ensures
        m.grid_cursor_goto(e) matches Ok(step) ==> step.model.wf(),
{
    if m.grid_cursor_goto(e) is Ok {
        let g = m.grids[e.grid];
        if e.grid == m.current_grid {
            lemma_replace_grid_wf(m, e.grid, g.cursor_goto(e.row, e.col));
        } else {
            let c = m.grids[m.current_grid];
            let after = m.grid_cursor_goto(e)->Ok_0.model;
            assert forall|j: i64| #[trigger] after.grids.contains_key(j) implies after.grid_ok(j) by {
                if j != e.grid && j != m.current_grid {
                    assert(m.grids.contains_key(j));
                }
            }
        }
    }
}

pub proof fn lemma_grid_resize_wf(m: Model, e: GridResize)
    requires
        m.wf(),
    ensures
        m.grid_resize(e) matches Ok(step) ==> step.model.wf(),
{
    if m.grids.contains_key(e.grid) {
        lemma_replace_grid_wf(m, e.grid, m.grids[e.grid].resize(e.width, e.height));
    } else {
        lemma_replace_grid_wf(m, e.grid, m.fresh_grid(e));
    }
}

pub proof fn lemma_grid_line_wf(m: Model, line: GridLineSegment)
    requires
        m.wf(),
    ensures
        m.grid_line(line) matches Ok(step) ==> step.model.wf(),
{
    if m.grid_line(line) is Ok {
        let g = m.grids[line.grid];
        lemma_put_line_wf(g, line.row, line.col_start, line.cells@);
        lemma_replace_grid_wf(m, line.grid, g.put_line(line.row, line.col_start, line.cells@));
    }
}

pub proof fn lemma_grid_clear_wf(m: Model, grid: i64)
    requires
        m.wf(),
    ensures
        m.grid_clear(grid) matches Ok(step) ==> step.model.wf(),
{
    if m.grids.contains_key(grid) {
        lemma_replace_grid_wf(m, grid, m.grids[grid].clear());
    }
}

pub proof fn lemma_grid_destroy_wf(m: Model, grid: i64)
    requires
        m.wf(),
    ensures
        m.grid_destroy(grid) matches Ok(step) ==> step.model.wf(),
{
    if m.grid_destroy(grid) is Ok {
        let after = m.grid_destroy(grid)->Ok_0.model;
        assert forall|j: i64| #[trigger] after.grids.contains_key(j) implies after.grid_ok(j) by {
            assert(m.grids.contains_key(j));
        }
    }
}

pub proof fn lemma_grid_scroll_wf(m: Model, e: GridScroll)
    requires
        m.wf(),
    ensures
        m.grid_scroll(e) matches Ok(step) ==> step.model.wf(),
{
    if m.grid_scroll(e) is Ok {
        lemma_replace_grid_wf(
            m,
            e.grid,
            m.grids[e.grid].scroll(e.top, e.bot, e.left, e.right, e.rows, e.cols),
        );
    }
}

pub proof fn lemma_default_colors_set_wf(m: Model, e: DefaultColorsSet)
    requires
        m.wf(),
    ensures
        m.default_colors_set(e) matches Ok(step) ==> step.model.wf(),
{
    lemma_map_grids_wf(m, |g: GridView| g.redraw());
}

pub proof fn lemma_hl_group_set_wf(m: Model, e: HlGroupSet)
    requires
        m.wf(),
    ensures
        m.hl_group_set(e) matches Ok(step) ==> step.model.wf(),
{
}

pub proof fn lemma_mode_change_wf(m: Model, e: ModeChange)
    requires
        m.wf(),
    ensures
        m.mode_change(e) matches Ok(step) ==> step.model.wf(),
{
    if m.mode_change(e) is Ok {
        let mode = m.mode_infos[e.index as int];
        lemma_map_grids_wf(m, |g: GridView| g.set_mode(mode));
    }
}

pub proof fn lemma_set_busy_wf(m: Model, busy: bool)
    requires
        m.wf(),
    ensures
        m.set_busy(busy) matches Ok(step) ==> step.model.wf(),
{
    lemma_map_grids_wf(m, |g: GridView| g.set_busy(busy));
}

pub proof fn lemma_flush_wf(m: Model)
    requires
        m.wf(),
    ensures
        m.flush() matches Ok(step) ==> step.model.wf(),
{
    match m.resize_on_flush {
        Some(opts) => {
            lemma_map_grids_wf(
                m,
                |g: GridView| g.flush(m.hl_defs).update_cell_metrics(opts.font, opts.line_space),
            );
        },
        None => {
            lemma_map_grids_wf(m, |g: GridView| g.flush(m.hl_defs));
        },
    }
}

pub proof fn lemma_window_pos_wf(m: Model, e: WindowPos)
    requires
        m.wf(),
    ensures
        m.window_pos(e) matches Ok(step) ==> step.model.wf(),
{
    if m.grids.contains_key(e.grid) {
        lemma_replace_grid_wf(m, e.grid, m.grids[e.grid].resize(e.width, e.height));
    }
}

/// Every redraw event leaves a well-formed state well formed: the base
/// grid and the current grid exist, and the current grid alone is active.
pub proof fn lemma_redraw_keeps_wf(m: Model, event: RedrawEvent)
    requires
        m.wf(),
    ensures
        m.redraw(event) matches Ok(step) ==> step.model.wf(),
{
    reveal(Model::redraw);
    match event {
        RedrawEvent::GridLine(line) => lemma_grid_line_wf(m, line),
        RedrawEvent::GridCursorGoto(e) => lemma_grid_cursor_goto_wf(m, e),
        RedrawEvent::GridResize(e) => lemma_grid_resize_wf(m, e),
        RedrawEvent::GridClear(grid) => lemma_grid_clear_wf(m, grid),
        RedrawEvent::GridDestroy(grid) => lemma_grid_destroy_wf(m, grid),
        RedrawEvent::GridScroll(e) => lemma_grid_scroll_wf(m, e),
        RedrawEvent::DefaultColorsSet(e) => lemma_default_colors_set_wf(m, e),
        RedrawEvent::HlGroupSet(e) => lemma_hl_group_set_wf(m, e),
        RedrawEvent::ModeChange(e) => lemma_mode_change_wf(m, e),
        RedrawEvent::SetBusy(busy) => lemma_set_busy_wf(m, busy),
        RedrawEvent::Flush => lemma_flush_wf(m),
        RedrawEvent::WindowPos(e) => lemma_window_pos_wf(m, e),
        _ => {},
    }
}

/// A batch of redraw events leaves a well-formed state well formed,
/// whether or not it ends in an error.
pub proof fn lemma_batch_keeps_wf(m: Model, events: Seq<RedrawEvent>)
    requires
        m.wf(),
    ensures
        m.batch(events).model.wf(),
    decreases events.len(),
{
    if events.len() > 0 {
        lemma_redraw_keeps_wf(m, events[0]);
        match m.redraw(events[0]) {
            Ok(step) => lemma_batch_keeps_wf(step.model, events.drop_first()),
            Err(_) => {},
        }
    }
}

/// An event of the client's own protocol leaves a well-formed state well
/// formed.
pub proof fn lemma_gnvim_keeps_wf(m: Model, event: GnvimEvent)
    requires
        m.wf(),
    ensures
        m.gnvim(event).model.wf(),
{
}

/// Whatever the editor sends, the state stays well formed: the base grid
/// and the current grid exist, and the current grid is the one active
/// grid.
pub proof fn lemma_notify_keeps_wf(m: Model, notify: Notify)
    requires
        m.wf(),
    ensures
        m.notify(notify).model.wf(),
{
    match notify {
        Notify::RedrawEvent(events) => lemma_batch_keeps_wf(m, events@),
        Notify::GnvimEvent(Ok(event)) => lemma_gnvim_keeps_wf(m, event),
        Notify::GnvimEvent(Err(_)) => {},
    }
}

/// In a well-formed state exactly one grid is active: a grid is active if
/// and only if it is the current grid, and the current grid exists.
pub proof fn lemma_one_grid_is_active(m: Model, grid: i64)
    requires
        m.wf(),
        m.grids.contains_key(grid),
    ensures
        m.grids.contains_key(m.current_grid),
        m.grids[m.current_grid].active,
        m.grids[grid].active <==> grid == m.current_grid,
{
}

} // verus!
