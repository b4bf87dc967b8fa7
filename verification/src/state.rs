//! The synchronisation state and the handlers of the events.
//!
//! [`UIState::handle_notify`] is the one entry point for what the editor
//! sends. Every handler is proved to make of the state what
//! [`crate::model`] says, and to leave the state as it was where the event
//! violates the protocol.

use crate::action::{Action, Command};
use crate::color::{HlDefs, HlGroup};
use crate::error::ProtocolError;
use crate::event::{
    CmdlineBlockAppend, CmdlineBlockShow, CmdlinePos, CmdlineShow, CmdlineSpecialChar,
    DefaultColorsSet, GnvimEvent, GridCursorGoto, GridResize, GridScroll, HlAttrDefine, HlGroupSet,
    ModeChange, ModeInfoSet, MsgSetPos, Notify, OptionSet, PopupmenuShow, RedrawEvent,
    TablineUpdate, WildmenuShow, WindowExternalPos, WindowFloatPos, WindowPos,
};
use crate::font::{Font, ResizeOptions};
use crate::geometry::to_px;
use crate::grid::{Grid, GridLineSegment, GridOp, GridView};
use crate::mode::ModeInfo;
use crate::model::{CursorTooltip, Model, PendingResize, Step, BASE_GRID};
use crate::window::{
    fit_float, message_height, place_float, place_normal, shift_rect, Window, WindowKind,
};
use std::collections::HashMap;
use vstd::prelude::*;
use vstd::std_specs::iter::IteratorSpec;

verus! {

broadcast use vstd::std_specs::hash::group_hash_axioms;

/// The grids of a map as mathematical values.
pub open spec fn grid_views(grids: Map<i64, Grid>) -> Map<i64, GridView> {
    grids.map_values(|g: Grid| g@)
}

/// Whether a handler did what the model says: on success the actions and
/// the state that the model gives, on a violation the model's error and
/// the state as it was.
pub open spec fn refines(
    before: Model,
    after: Model,
    result: Result<Vec<Action>, ProtocolError>,
    want: Result<Step, ProtocolError>,
) -> bool {
    match want {
        Ok(step) => {
            &&& result matches Ok(actions)
            &&& actions@ == step.actions
            &&& after == step.model
        },
        Err(error) => {
            &&& result == Err::<Vec<Action>, ProtocolError>(error)
            &&& after == before
        },
    }
}

/// The state that the events of the editor are applied to.
pub struct UIState {
    pub windows: HashMap<i64, Window>,
    /// All grids, by id.
    pub grids: HashMap<i64, Grid>,
    /// Highlight definitions.
    pub hl_defs: HlDefs,
    /// The mode table. A mode change picks one entry and hands it to the
    /// grids.
    pub mode_infos: Vec<ModeInfo>,
    pub current_mode: Option<ModeInfo>,
    /// Id of the grid that has the cursor.
    pub current_grid: i64,
    /// The cursor tooltip, where this build has one.
    pub cursor_tooltip: Option<CursorTooltip>,
    /// The delayed request to resize the editor's screen, if one waits.
    pub resize_source_id: Option<PendingResize>,
    /// What a flush has to apply, if anything.
    pub resize_on_flush: Option<ResizeOptions>,
    /// Whether a flush has to hand the groups' colours on.
    pub hl_groups_changed: bool,
    pub font: Font,
    pub line_space: i64,
    pub default_font: Font,
}

impl View for UIState {
    type V = Model;

    open spec fn view(&self) -> Model {
        Model {
            grids: grid_views(self.grids@),
            windows: self.windows@,
            hl_defs: self.hl_defs@,
            mode_infos: self.mode_infos@,
            current_mode: self.current_mode,
            current_grid: self.current_grid,
            cursor_tooltip: self.cursor_tooltip,
            resize_source_id: self.resize_source_id,
            resize_on_flush: self.resize_on_flush,
            hl_groups_changed: self.hl_groups_changed,
            font: self.font,
            line_space: self.line_space,
            default_font: self.default_font,
        }
    }
}

/// What a notification led to: the actions to carry out, and the violation
/// that ended the batch, if there was one.
#[derive(Debug, PartialEq, Eq)]
pub struct Outcome {
    pub actions: Vec<Action>,
    pub error: Option<ProtocolError>,
}

/// Takes a grid out of the map.
fn take_grid(grids: &mut HashMap<i64, Grid>, id: i64) -> (grid: Grid)
    requires
        old(grids)@.contains_key(id),
    ensures
        grid == old(grids)@[id],
        final(grids)@ == old(grids)@.remove(id),
{
    grids.remove(&id).unwrap()
}

/// Puts a grid into the map, in place of the one under that id.
fn put_grid(grids: &mut HashMap<i64, Grid>, id: i64, grid: Grid)
    ensures
        final(grids)@ == old(grids)@.insert(id, grid),
        grid_views(final(grids)@) == grid_views(old(grids)@).insert(id, grid@),
        grid_views(final(grids)@) == grid_views(old(grids)@.remove(id)).insert(id, grid@),
{
    grids.insert(id, grid);
    assert(grid_views(grids@) =~= grid_views(old(grids)@).insert(id, grid@));
    assert(grid_views(grids@) =~= grid_views(old(grids)@.remove(id)).insert(id, grid@));
}

/// The ids of all grids, each once.
fn grid_ids(grids: &HashMap<i64, Grid>) -> (ids: Vec<i64>)
    ensures
        ids@.no_duplicates(),
        ids@.to_set() == grids@.dom(),
{
    let mut ids: Vec<i64> = Vec::new();
    let ghost all = vstd::std_specs::hash::spec_keys_iter(grids).remaining();
    for id in it: grids.keys()
        invariant
            it.seq() == all,
            ids@ == all.take(it.index()).unref(),
    {
        ids.push(*id);
        assert(ids@ =~= all.take(it.index() + 1).unref());
    }
    assert(ids@ =~= all.unref());
    proof {
        assert forall|i: int, j: int|
            0 <= i < ids@.len() && 0 <= j < ids@.len() && i != j implies ids@[i] != ids@[j] by {
            assert(all[i] != all[j]);
        }
    }
    ids
}

/// Whether `name` is the text `text`.
fn is_named(name: &String, text: &str) -> (same: bool)
    ensures
        same == (name@ == text@),
{
    *name == text.to_owned()
}

/// The grids of a well-formed state are well formed, each of them.
proof fn lemma_each_grid_wf(grids: Map<i64, Grid>, m: Model)
    requires
        m.wf(),
        m.grids == grid_views(grids),
    ensures
        forall|k: i64| #[trigger] grids.contains_key(k) ==> grids[k]@.wf(),
{
    assert forall|k: i64| #[trigger] grids.contains_key(k) implies grids[k]@.wf() by {
        assert(m.grids.contains_key(k));
        assert(m.grid_ok(k));
    }
}

/// Makes the change `op` to every grid.
fn update_all(grids: &mut HashMap<i64, Grid>, op: &GridOp, hl: &HlDefs)
    requires
        forall|k: i64| #[trigger] old(grids)@.contains_key(k) ==> old(grids)@[k]@.wf(),
    ensures
        grid_views(final(grids)@) == grid_views(old(grids)@).map_values(
            |g: GridView| g.apply(*op, hl@),
        ),
{
    let ids = grid_ids(grids);
    let mut i: usize = 0;
    while i < ids.len()
        invariant
            i <= ids.len(),
            ids@.no_duplicates(),
            ids@.to_set() == old(grids)@.dom(),
            grids@.dom() == old(grids)@.dom(),
            forall|k: i64| #[trigger] old(grids)@.contains_key(k) ==> old(grids)@[k]@.wf(),
            forall|j: int|
                0 <= j < i ==> grids@[#[trigger] ids@[j]]@ == old(grids)@[ids@[j]]@.apply(*op, hl@),
            forall|j: int| i <= j < ids.len() ==> grids@[#[trigger] ids@[j]] == old(grids)@[ids@[j]],
        decreases ids.len() - i,
    {
        let id = ids[i];
        assert(ids@.to_set().contains(ids@[i as int]));
        let mut grid = take_grid(grids, id);
        grid.apply(op, hl);
        grids.insert(id, grid);
        assert(grids@.dom() =~= old(grids)@.dom());
        i += 1;
    }
    let ghost want = grid_views(old(grids)@).map_values(|g: GridView| g.apply(*op, hl@));
    assert forall|k: i64| #[trigger] want.contains_key(k) implies grid_views(grids@)[k] == want[k] by {
        assert(ids@.to_set().contains(k));
        let j = choose|j: int| 0 <= j < ids@.len() && ids@[j] == k;
        assert(grids@[ids@[j]]@ == old(grids)@[ids@[j]]@.apply(*op, hl@));
    }
    assert(grid_views(grids@) =~= want);
}

impl UIState {
    /// The state before any event: the base grid of the given size in the
    /// given font, current and active; no window; the initial highlight
    /// table.
    pub fn new(font: Font, line_space: i64, width: u64, height: u64, tooltip: bool) -> (state: UIState)
        ensures
            state@ == Model::initial(font, line_space, width, height, tooltip),
            state@.wf(),
    {
        let mut base = Grid::new(BASE_GRID, font.clone(), line_space, width, height);
        base.set_active(true);
        let mut grids: HashMap<i64, Grid> = HashMap::new();
        grids.insert(BASE_GRID, base);
        let state = UIState {
            windows: HashMap::new(),
            grids,
            hl_defs: HlDefs::new(),
            mode_infos: Vec::new(),
            current_mode: None,
            current_grid: BASE_GRID,
            cursor_tooltip: if tooltip {
                Some(CursorTooltip { visible: false })
            } else {
                None
            },
            resize_source_id: None,
            resize_on_flush: None,
            hl_groups_changed: false,
            font: font.clone(),
            line_space,
            default_font: font,
        };
        assert(state@.grids =~= Model::initial(font, line_space, width, height, tooltip).grids);
        assert(state@.windows =~= Model::initial(font, line_space, width, height, tooltip).windows);
        state
    }

    /// Whether the state is well formed. Every function here keeps it so;
    /// only a write to a field from outside can break it.
    pub fn is_well_formed(&self) -> (ok: bool)
        ensures
            ok == self@.wf(),
    {
        assert(self@.grids.dom() =~= self.grids@.dom());
        if !self.grids.contains_key(&BASE_GRID) || !self.grids.contains_key(&self.current_grid)
            || !self.hl_defs.is_well_formed() {
            return false;
        }
        let ids = grid_ids(&self.grids);
        let mut i: usize = 0;
        while i < ids.len()
            invariant
                i <= ids.len(),
                ids@.to_set() == self.grids@.dom(),
                forall|j: int| 0 <= j < i ==> self@.grid_ok(#[trigger] ids@[j]),
            decreases ids.len() - i,
        {
            let id = ids[i];
            assert(ids@.to_set().contains(ids@[i as int]));
            assert(self@.grids.contains_key(id));
            let grid = self.grids.get(&id).unwrap();
            if !grid.is_well_formed() || grid.id != id || grid.active != (id == self.current_grid) {
                return false;
            }
            i += 1;
        }
        assert forall|k: i64| #[trigger] self@.grids.contains_key(k) implies self@.grid_ok(k) by {
            assert(ids@.to_set().contains(k));
            let j = choose|j: int| 0 <= j < ids@.len() && ids@[j] == k;
            assert(self@.grid_ok(ids@[j]));
        }
        true
    }

    /// Has the title of the main surface set.
    pub fn set_title(&mut self, title: String) -> (r: Result<Vec<Action>, ProtocolError>)
        requires
            old(self)@.wf(),
        ensures
            final(self)@.wf(),
            refines(old(self)@, final(self)@, r, old(self)@.set_title(title)),
    {
        let mut actions: Vec<Action> = Vec::new();
        actions.push(Action::SetTitle(title));
        assert(actions@ =~= seq![Action::SetTitle(title)]);
        Ok(actions)
    }

    /// Empties a grid.
    pub fn grid_clear(&mut self, grid: i64) -> (r: Result<Vec<Action>, ProtocolError>)
        requires
            old(self)@.wf(),
        ensures
            final(self)@.wf(),
            refines(old(self)@, final(self)@, r, old(self)@.grid_clear(grid)),
    {
        if !self.grids.contains_key(&grid) {
            return Err(ProtocolError::UnknownGrid(grid));
        }
        proof {
            crate::model::lemma_grid_clear_wf(self@, grid);
            assert(self@.grids.contains_key(grid));
        }
        let mut g = take_grid(&mut self.grids, grid);
        g.clear();
        put_grid(&mut self.grids, grid, g);
        assert(self@.grids =~= old(self)@.grids.insert(grid, old(self)@.grids[grid].clear()));
        Ok(Vec::new())
    }

    /// Moves the cursor, and with it the current grid.
    pub fn grid_cursor_goto(&mut self, e: GridCursorGoto) -> (r: Result<Vec<Action>, ProtocolError>)
        requires
            old(self)@.wf(),
        ensures
            final(self)@.wf(),
            refines(old(self)@, final(self)@, r, old(self)@.grid_cursor_goto(e)),
    {
        if !self.grids.contains_key(&e.grid) {
            return Err(ProtocolError::UnknownGrid(e.grid));
        }
        proof {
            crate::model::lemma_grid_cursor_goto_wf(self@, e);
            assert(self@.grids.contains_key(e.grid));
            assert(self@.grids.contains_key(self.current_grid));
        }
        if e.grid != self.current_grid {
            let mut previous = take_grid(&mut self.grids, self.current_grid);
            previous.set_active(false);
            previous.tick();
            put_grid(&mut self.grids, self.current_grid, previous);
            self.current_grid = e.grid;
            let mut next = take_grid(&mut self.grids, e.grid);
            next.set_active(true);
            next.cursor_goto(e.row, e.col);
            put_grid(&mut self.grids, e.grid, next);
        } else {
            let mut grid = take_grid(&mut self.grids, e.grid);
            grid.cursor_goto(e.row, e.col);
            put_grid(&mut self.grids, e.grid, grid);
        }
        assert(self@.grids =~= old(self)@.grid_cursor_goto(e)->Ok_0.model.grids);
        Ok(Vec::new())
    }

    /// Resizes a grid, or creates it where it does not exist.
    pub fn grid_resize(&mut self, e: GridResize) -> (r: Result<Vec<Action>, ProtocolError>)
        requires
            old(self)@.wf(),
        ensures
            final(self)@.wf(),
            refines(old(self)@, final(self)@, r, old(self)@.grid_resize(e)),
    {
        proof {
            crate::model::lemma_grid_resize_wf(self@, e);
        }
        let mut actions: Vec<Action> = Vec::new();
        if self.grids.contains_key(&e.grid) {
            assert(self@.grids.contains_key(e.grid));
            let mut grid = take_grid(&mut self.grids, e.grid);
            grid.resize(e.width, e.height);
            put_grid(&mut self.grids, e.grid, grid);
        } else {
            let mut grid = Grid::new(e.grid, self.font.clone(), self.line_space, e.width, e.height);
            match self.current_mode {
                Some(mode) => {
                    grid.set_mode(mode);
                },
                None => {},
            }
            put_grid(&mut self.grids, e.grid, grid);
            actions.push(Action::GridCreated(e.grid));
        }
        assert(self@.grids =~= old(self)@.grid_resize(e)->Ok_0.model.grids);
        assert(actions@ =~= old(self)@.grid_resize(e)->Ok_0.actions);
        Ok(actions)
    }

    /// Writes a line update into its grid.
    pub fn grid_line(&mut self, line: GridLineSegment) -> (r: Result<Vec<Action>, ProtocolError>)
        requires
            old(self)@.wf(),
        ensures
            final(self)@.wf(),
            refines(old(self)@, final(self)@, r, old(self)@.grid_line(line)),
    {
        let id = line.grid;
        if !self.grids.contains_key(&id) {
            return Err(ProtocolError::UnknownGrid(id));
        }
        proof {
            crate::model::lemma_grid_line_wf(self@, line);
            assert(self@.grids.contains_key(id));
        }
        let mut grid = take_grid(&mut self.grids, id);
        let written = grid.put_line(line);
        put_grid(&mut self.grids, id, grid);
        match written {
            Ok(()) => {
                assert(self@.grids =~= old(self)@.grid_line(line)->Ok_0.model.grids);
                Ok(Vec::new())
            },
            Err(error) => {
                assert(self@.grids =~= old(self)@.grids);
                Err(error)
            },
        }
    }

    /// Removes a grid. The base grid stays.
    pub fn grid_destroy(&mut self, grid: i64) -> (r: Result<Vec<Action>, ProtocolError>)
        requires
            old(self)@.wf(),
        ensures
            final(self)@.wf(),
            refines(old(self)@, final(self)@, r, old(self)@.grid_destroy(grid)),
    {
        if grid == BASE_GRID {
            return Err(ProtocolError::BaseGridDestroyed);
        }
        if !self.grids.contains_key(&grid) {
            return Err(ProtocolError::UnknownGrid(grid));
        }
        proof {
            crate::model::lemma_grid_destroy_wf(self@, grid);
            assert(self@.grids.contains_key(grid));
            assert(self@.grids.contains_key(BASE_GRID));
        }
        self.grids.remove(&grid);
        if grid == self.current_grid {
            self.current_grid = BASE_GRID;
            let mut base = take_grid(&mut self.grids, BASE_GRID);
            base.set_active(true);
            put_grid(&mut self.grids, BASE_GRID, base);
        }
        let mut actions: Vec<Action> = Vec::new();
        actions.push(Action::GridDestroyed(grid));
        assert(self@.grids =~= old(self)@.grid_destroy(grid)->Ok_0.model.grids);
        assert(actions@ =~= old(self)@.grid_destroy(grid)->Ok_0.actions);
        Ok(actions)
    }

    /// Moves the content of a region of a grid, and tells the editor to run
    /// the user's scroll autocommands.
    pub fn grid_scroll(&mut self, e: GridScroll) -> (r: Result<Vec<Action>, ProtocolError>)
        requires
            old(self)@.wf(),
        ensures
            final(self)@.wf(),
            refines(old(self)@, final(self)@, r, old(self)@.grid_scroll(e)),
    {
        if !self.grids.contains_key(&e.grid) {
            return Err(ProtocolError::UnknownGrid(e.grid));
        }
        proof {
            crate::model::lemma_grid_scroll_wf(self@, e);
            assert(self@.grids.contains_key(e.grid));
        }
        let mut grid = take_grid(&mut self.grids, e.grid);
        let moved = grid.scroll(e.top, e.bot, e.left, e.right, e.rows, e.cols);
        put_grid(&mut self.grids, e.grid, grid);
        match moved {
            Ok(()) => {
                let mut actions: Vec<Action> = Vec::new();
                actions.push(Action::Command(Command::GnvimScroll));
                assert(self@.grids =~= old(self)@.grid_scroll(e)->Ok_0.model.grids);
                assert(actions@ =~= old(self)@.grid_scroll(e)->Ok_0.actions);
                Ok(actions)
            },
            Err(error) => {
                assert(self@.grids =~= old(self)@.grids);
                Err(error)
            },
        }
    }

    /// Sets the default colours.
    pub fn default_colors_set(&mut self, e: DefaultColorsSet) -> (r: Result<
        Vec<Action>,
        ProtocolError,
    >)
        requires
            old(self)@.wf(),
        ensures
            final(self)@.wf(),
            refines(old(self)@, final(self)@, r, old(self)@.default_colors_set(e)),
    {
        proof {
            crate::model::lemma_default_colors_set_wf(self@, e);
            lemma_each_grid_wf(self.grids@, self@);
        }
        self.hl_defs.set_defaults(e.fg, e.bg, e.sp);
        update_all(&mut self.grids, &GridOp::Redraw, &self.hl_defs);
        let mut actions: Vec<Action> = Vec::new();
        if self.cursor_tooltip.is_some() {
            actions.push(Action::TooltipSetColors { fg: e.fg, bg: e.bg });
        }
        actions.push(Action::SetBackground(e.bg));
        assert(self@.grids =~= old(self)@.grids.map_values(|g: GridView| g.redraw()));
        assert(actions@ =~= old(self)@.default_colors_set(e)->Ok_0.actions);
        Ok(actions)
    }

    /// Inserts or replaces one highlight definition.
    pub fn hl_attr_define(&mut self, e: HlAttrDefine) -> (r: Result<Vec<Action>, ProtocolError>)
        requires
            old(self)@.wf(),
        ensures
            final(self)@.wf(),
            refines(old(self)@, final(self)@, r, old(self)@.hl_attr_define(e)),
    {
        self.hl_defs.insert(e.id, e.hl);
        Ok(Vec::new())
    }

    /// Points the groups that a name stands for at a definition.
    pub fn hl_group_set(&mut self, e: HlGroupSet) -> (r: Result<Vec<Action>, ProtocolError>)
        requires
            old(self)@.wf(),
        ensures
            final(self)@.wf(),
            refines(old(self)@, final(self)@, r, old(self)@.hl_group_set(e)),
    {
        if is_named(&e.name, "Pmenu") {
            self.hl_defs.set_hl_group(HlGroup::Pmenu, e.hl_id);
            self.hl_defs.set_hl_group(HlGroup::Wildmenu, e.hl_id);
        } else if is_named(&e.name, "PmenuSel") {
            self.hl_defs.set_hl_group(HlGroup::PmenuSel, e.hl_id);
            self.hl_defs.set_hl_group(HlGroup::WildmenuSel, e.hl_id);
        } else if is_named(&e.name, "TabLine") {
            self.hl_defs.set_hl_group(HlGroup::Tabline, e.hl_id);
        } else if is_named(&e.name, "TabLineSel") {
            self.hl_defs.set_hl_group(HlGroup::TablineSel, e.hl_id);
            self.hl_defs.set_hl_group(HlGroup::CmdlineBorder, e.hl_id);
        } else if is_named(&e.name, "TabLineFill") {
            self.hl_defs.set_hl_group(HlGroup::TablineFill, e.hl_id);
        } else if is_named(&e.name, "Normal") {
            self.hl_defs.set_hl_group(HlGroup::Cmdline, e.hl_id);
        } else {
            return Ok(Vec::new());
        }
        self.hl_groups_changed = true;
        Ok(Vec::new())
    }

    /// Notes a font or a line spacing for the next flush.
    pub fn option_set(&mut self, opt: OptionSet) -> (r: Result<Vec<Action>, ProtocolError>)
        requires
            old(self)@.wf(),
        ensures
            final(self)@.wf(),
            refines(old(self)@, final(self)@, r, old(self)@.option_set(opt)),
    {
        assert(self@.grids.contains_key(BASE_GRID));
        match opt {
            OptionSet::GuiFont(named) => {
                let font = match named {
                    Some(font) => font,
                    None => self.default_font.clone(),
                };
                let line_space = match &self.resize_on_flush {
                    Some(opts) => opts.line_space,
                    None => self.grids.get(&BASE_GRID).unwrap().line_space,
                };
                self.font = font.clone();
                self.resize_on_flush = Some(ResizeOptions { font, line_space });
            },
            OptionSet::LineSpace(line_space) => {
                let font = match &self.resize_on_flush {
                    Some(opts) => opts.font.clone(),
                    None => self.grids.get(&BASE_GRID).unwrap().font.clone(),
                };
                self.line_space = line_space;
                self.resize_on_flush = Some(ResizeOptions { font, line_space });
            },
            OptionSet::NotSupported(_) => {},
        }
        Ok(Vec::new())
    }

    /// Replaces the mode table.
    pub fn mode_info_set(&mut self, e: ModeInfoSet) -> (r: Result<Vec<Action>, ProtocolError>)
        requires
            old(self)@.wf(),
        ensures
            final(self)@.wf(),
            refines(old(self)@, final(self)@, r, old(self)@.mode_info_set(e)),
    {
        self.mode_infos = e.mode_info;
        Ok(Vec::new())
    }

    /// Makes an entry of the mode table the current mode of every grid.
    pub fn mode_change(&mut self, e: ModeChange) -> (r: Result<Vec<Action>, ProtocolError>)
        requires
            old(self)@.wf(),
        ensures
            final(self)@.wf(),
            refines(old(self)@, final(self)@, r, old(self)@.mode_change(e)),
    {
        if e.index >= self.mode_infos.len() as u64 {
            return Err(ProtocolError::ModeIndexOutOfRange(e.index));
        }
        proof {
            crate::model::lemma_mode_change_wf(self@, e);
            lemma_each_grid_wf(self.grids@, self@);
        }
        let mode = self.mode_infos[e.index as usize];
        self.current_mode = Some(mode);
        update_all(&mut self.grids, &GridOp::SetMode(mode), &self.hl_defs);
        assert(self@.grids =~= old(self)@.grids.map_values(|g: GridView| g.set_mode(mode)));
        Ok(Vec::new())
    }

    /// Sets the busy flag of every grid.
    pub fn set_busy(&mut self, busy: bool) -> (r: Result<Vec<Action>, ProtocolError>)
        requires
            old(self)@.wf(),
        ensures
            final(self)@.wf(),
            refines(old(self)@, final(self)@, r, old(self)@.set_busy(busy)),
    {
        proof {
            crate::model::lemma_set_busy_wf(self@, busy);
            lemma_each_grid_wf(self.grids@, self@);
        }
        update_all(&mut self.grids, &GridOp::SetBusy(busy), &self.hl_defs);
        assert(self@.grids =~= old(self)@.grids.map_values(|g: GridView| g.set_busy(busy)));
        Ok(Vec::new())
    }

    /// The commit that ends a batch.
    pub fn flush(&mut self) -> (r: Result<Vec<Action>, ProtocolError>)
        requires
            old(self)@.wf(),
        ensures
            final(self)@.wf(),
            refines(old(self)@, final(self)@, r, old(self)@.flush()),
    {
        let ghost want = old(self)@.flush()->Ok_0;
        proof {
            crate::model::lemma_flush_wf(self@);
            crate::model::lemma_map_grids_wf(self@, |g: GridView| g.flush(self@.hl_defs));
            lemma_each_grid_wf(self.grids@, self@);
        }
        update_all(&mut self.grids, &GridOp::Flush, &self.hl_defs);
        assert(self@.grids =~= old(self)@.grids.map_values(|g: GridView| g.flush(self@.hl_defs)));
        let mut actions: Vec<Action> = Vec::new();
        let mut intent: Option<ResizeOptions> = None;
        std::mem::swap(&mut intent, &mut self.resize_on_flush);
        match intent {
            Some(opts) => {
                proof {
                    lemma_each_grid_wf(self.grids@, self@);
                }
                update_all(
                    &mut self.grids,
                    &GridOp::SetMetrics(opts.font.clone(), opts.line_space),
                    &self.hl_defs,
                );
                assert(self@.grids =~= old(self)@.flushed_grids());
                assert(self@.grids.contains_key(BASE_GRID));
                let base = self.grids.get(&BASE_GRID).unwrap();
                let (cols, rows) = base.calc_size();
                match self.resize_source_id {
                    Some(pending) => {
                        actions.push(Action::CancelResizeTimer(pending.timer));
                    },
                    None => {},
                }
                if cols != base.width || rows != base.height {
                    actions.push(Action::ResizeScreen { cols: cols as i64, rows: rows as i64 });
                }
                self.resize_source_id = None;
                actions.push(Action::PopupmenuSetFont(opts.font.clone()));
                actions.push(Action::CmdlineSetFont(opts.font.clone()));
                actions.push(Action::TablineSetFont(opts.font.clone()));
                if self.cursor_tooltip.is_some() {
                    actions.push(Action::TooltipSetFont(opts.font.clone()));
                }
                actions.push(Action::CmdlineSetLineSpace(opts.line_space));
                actions.push(Action::PopupmenuSetLineSpace(opts.line_space));
                actions.push(Action::TablineSetLineSpace(opts.line_space));
            },
            None => {
                assert(self@.grids =~= old(self)@.flushed_grids());
            },
        }
        if self.hl_groups_changed {
            actions.push(
                Action::PopupmenuSetColors {
                    normal: self.hl_defs.group_style(HlGroup::Pmenu),
                    selected: self.hl_defs.group_style(HlGroup::PmenuSel),
                },
            );
            actions.push(
                Action::TablineSetColors {
                    normal: self.hl_defs.group_style(HlGroup::Tabline),
                    selected: self.hl_defs.group_style(HlGroup::TablineSel),
                    fill: self.hl_defs.group_style(HlGroup::TablineFill),
                },
            );
            actions.push(
                Action::CmdlineSetColors {
                    normal: self.hl_defs.group_style(HlGroup::Cmdline),
                    border: self.hl_defs.group_style(HlGroup::CmdlineBorder),
                },
            );
            actions.push(
                Action::WildmenuSetColors {
                    normal: self.hl_defs.group_style(HlGroup::Wildmenu),
                    selected: self.hl_defs.group_style(HlGroup::WildmenuSel),
                },
            );
            self.hl_groups_changed = false;
        }
        assert(actions@ =~= want.actions);
        Ok(actions)
    }

    /// Has the popup menu shown at a cell.
    pub fn popupmenu_show(&mut self, e: PopupmenuShow) -> (r: Result<Vec<Action>, ProtocolError>)
        requires
            old(self)@.wf(),
        ensures
            final(self)@.wf(),
            refines(old(self)@, final(self)@, r, old(self)@.popupmenu_show(e)),
    {
        if !self.windows.contains_key(&e.grid) {
            return Err(ProtocolError::UnknownWindow(e.grid));
        }
        assert(self@.grids.contains_key(self.current_grid));
        let grid = self.grids.get(&self.current_grid).unwrap();
        let window = self.windows.get(&e.grid).unwrap();
        let rect = shift_rect(grid.get_rect_for_cell(e.row, e.col), window);
        let mut actions: Vec<Action> = Vec::new();
        actions.push(Action::PopupmenuSetItems(e.items));
        actions.push(Action::PopupmenuSetAnchor(rect));
        actions.push(Action::PopupmenuSelect(e.selected));
        actions.push(Action::PopupmenuShow);
        match self.cursor_tooltip {
            Some(tooltip) => {
                if tooltip.visible {
                    actions.push(Action::TooltipAvoidPopupmenu);
                }
            },
            None => {},
        }
        assert(actions@ =~= old(self)@.popupmenu_show(e)->Ok_0.actions);
        Ok(actions)
    }

    /// Has the popup menu hidden, and lets the tooltip choose its side again.
    pub fn popupmenu_hide(&mut self) -> (r: Result<Vec<Action>, ProtocolError>)
        requires
            old(self)@.wf(),
        ensures
            final(self)@.wf(),
            refines(old(self)@, final(self)@, r, old(self)@.popupmenu_hide()),
    {
        let mut actions: Vec<Action> = Vec::new();
        actions.push(Action::PopupmenuHide);
        if self.cursor_tooltip.is_some() {
            actions.push(Action::TooltipReleaseGravity);
        }
        assert(actions@ =~= old(self)@.popupmenu_hide()->Ok_0.actions);
        Ok(actions)
    }

    /// The one action `action`, with the state as it is.
    fn only(&self, action: Action) -> (r: Result<Vec<Action>, ProtocolError>)
        ensures
            refines(self@, self@, r, self@.emit(seq![action])),
    {
        let mut actions: Vec<Action> = Vec::new();
        actions.push(action);
        assert(actions@ =~= seq![action]);
        Ok(actions)
    }

    /// Has an item of the popup menu selected.
    pub fn popupmenu_select(&mut self, selected: i64) -> (r: Result<Vec<Action>, ProtocolError>)
        requires
            old(self)@.wf(),
        ensures
            final(self)@.wf(),
            refines(old(self)@, final(self)@, r, old(self)@.popupmenu_select(selected)),
    {
        self.only(Action::PopupmenuSelect(selected))
    }

    /// Hands the tab pages on to the tab line.
    pub fn tabline_update(&mut self, e: TablineUpdate) -> (r: Result<Vec<Action>, ProtocolError>)
        requires
            old(self)@.wf(),
        ensures
            final(self)@.wf(),
            refines(old(self)@, final(self)@, r, old(self)@.tabline_update(e)),
    {
        self.only(Action::TablineUpdate(e))
    }

    /// Hands a command line on to be shown.
    pub fn cmdline_show(&mut self, e: CmdlineShow) -> (r: Result<Vec<Action>, ProtocolError>)
        requires
            old(self)@.wf(),
        ensures
            final(self)@.wf(),
            refines(old(self)@, final(self)@, r, old(self)@.cmdline_show(e)),
    {
        self.only(Action::CmdlineShow(e))
    }

    /// Has the command line hidden.
    pub fn cmdline_hide(&mut self) -> (r: Result<Vec<Action>, ProtocolError>)
        requires
            old(self)@.wf(),
        ensures
            final(self)@.wf(),
            refines(old(self)@, final(self)@, r, old(self)@.cmdline_hide()),
    {
        self.only(Action::CmdlineHide)
    }

    /// Hands the cursor position on to the command line.
    pub fn cmdline_pos(&mut self, e: CmdlinePos) -> (r: Result<Vec<Action>, ProtocolError>)
        requires
            old(self)@.wf(),
        ensures
            final(self)@.wf(),
            refines(old(self)@, final(self)@, r, old(self)@.cmdline_pos(e)),
    {
        self.only(Action::CmdlineSetPos(e))
    }

    /// Hands a special character on to the command line.
    pub fn cmdline_special_char(&mut self, e: CmdlineSpecialChar) -> (r: Result<
        Vec<Action>,
        ProtocolError,
    >)
        requires
            old(self)@.wf(),
        ensures
            final(self)@.wf(),
            refines(old(self)@, final(self)@, r, old(self)@.cmdline_special_char(e)),
    {
        self.only(Action::CmdlineSpecialChar(e))
    }

    /// Hands a block of lines on to the command line.
    pub fn cmdline_block_show(&mut self, e: CmdlineBlockShow) -> (r: Result<
        Vec<Action>,
        ProtocolError,
    >)
        requires
            old(self)@.wf(),
        ensures
            final(self)@.wf(),
            refines(old(self)@, final(self)@, r, old(self)@.cmdline_block_show(e)),
    {
        self.only(Action::CmdlineBlockShow(e))
    }

    /// Hands one more line on to the block of the command line.
    pub fn cmdline_block_append(&mut self, e: CmdlineBlockAppend) -> (r: Result<
        Vec<Action>,
        ProtocolError,
    >)
        requires
            old(self)@.wf(),
        ensures
            final(self)@.wf(),
            refines(old(self)@, final(self)@, r, old(self)@.cmdline_block_append(e)),
    {
        self.only(Action::CmdlineBlockAppend(e))
    }

    /// Has the block of the command line hidden.
    pub fn cmdline_block_hide(&mut self) -> (r: Result<Vec<Action>, ProtocolError>)
        requires
            old(self)@.wf(),
        ensures
            final(self)@.wf(),
            refines(old(self)@, final(self)@, r, old(self)@.cmdline_block_hide()),
    {
        self.only(Action::CmdlineBlockHide)
    }

    /// Hands the items on to the wild menu.
    pub fn wildmenu_show(&mut self, e: WildmenuShow) -> (r: Result<Vec<Action>, ProtocolError>)
        requires
            old(self)@.wf(),
        ensures
            final(self)@.wf(),
            refines(old(self)@, final(self)@, r, old(self)@.wildmenu_show(e)),
    {
        self.only(Action::WildmenuShow(e.0))
    }

    /// Has the wild menu hidden.
    pub fn wildmenu_hide(&mut self) -> (r: Result<Vec<Action>, ProtocolError>)
        requires
            old(self)@.wf(),
        ensures
            final(self)@.wf(),
            refines(old(self)@, final(self)@, r, old(self)@.wildmenu_hide()),
    {
        self.only(Action::WildmenuHide)
    }

    /// Has an item of the wild menu selected.
    pub fn wildmenu_select(&mut self, item: i64) -> (r: Result<Vec<Action>, ProtocolError>)
        requires
            old(self)@.wf(),
        ensures
            final(self)@.wf(),
            refines(old(self)@, final(self)@, r, old(self)@.wildmenu_select(item)),
    {
        self.only(Action::WildmenuSelect(item))
    }

    /// The window of `grid`, or a new one where there is none yet.
    fn window_or_new(&self, grid: i64, handle: i64, kind: WindowKind) -> (window: Window)
        ensures
            window == self@.window_or_new(grid, handle, kind),
    {
        match self.windows.get(&grid) {
            Some(window) => *window,
            None => Window::new(grid, handle, kind),
        }
    }

    /// Places a normal window and gives its grid the size of the window.
    pub fn window_pos(&mut self, e: WindowPos) -> (r: Result<Vec<Action>, ProtocolError>)
        requires
            old(self)@.wf(),
        ensures
            final(self)@.wf(),
            refines(old(self)@, final(self)@, r, old(self)@.window_pos(e)),
    {
        if !self.grids.contains_key(&e.grid) {
            return Err(ProtocolError::UnknownGrid(e.grid));
        }
        proof {
            crate::model::lemma_window_pos_wf(self@, e);
            assert(self@.grids.contains_key(e.grid));
            assert(self@.grids.contains_key(BASE_GRID));
        }
        let base = self.grids.get(&BASE_GRID).unwrap().get_grid_metrics();
        let rect = place_normal(base, e.start_row, e.start_col, e.width, e.height);
        let mut window = self.window_or_new(e.grid, e.win, WindowKind::Normal);
        window.place(WindowKind::Normal, rect);
        self.windows.insert(e.grid, window);
        let mut grid = take_grid(&mut self.grids, e.grid);
        grid.resize(e.width, e.height);
        put_grid(&mut self.grids, e.grid, grid);
        let mut actions: Vec<Action> = Vec::new();
        actions.push(Action::WindowPlaced { grid: e.grid, rect });
        assert(self@.grids =~= old(self)@.window_pos(e)->Ok_0.model.grids);
        assert(actions@ =~= old(self)@.window_pos(e)->Ok_0.actions);
        Ok(actions)
    }

    /// Places a floating window at its anchor, and asks the editor to shrink
    /// its grid where it reaches past the base grid.
    pub fn window_float_pos(&mut self, e: WindowFloatPos) -> (r: Result<Vec<Action>, ProtocolError>)
        requires
            old(self)@.wf(),
        ensures
            final(self)@.wf(),
            refines(old(self)@, final(self)@, r, old(self)@.window_float_pos(e)),
    {
        if !self.grids.contains_key(&e.anchor_grid) {
            return Err(ProtocolError::UnknownGrid(e.anchor_grid));
        }
        if e.anchor_grid != BASE_GRID && !self.windows.contains_key(&e.anchor_grid) {
            return Err(ProtocolError::UnknownWindow(e.anchor_grid));
        }
        if !self.grids.contains_key(&e.grid) {
            return Err(ProtocolError::UnknownGrid(e.grid));
        }
        proof {
            assert(self@.grids.contains_key(e.grid));
            assert(self@.grids.contains_key(e.anchor_grid));
            assert(self@.grids.contains_key(BASE_GRID));
        }
        let (offset_x, offset_y) = if e.anchor_grid == BASE_GRID {
            (0, 0)
        } else {
            let anchor_window = self.windows.get(&e.anchor_grid).unwrap();
            (anchor_window.x, anchor_window.y)
        };
        let anchor_metrics = self.grids.get(&e.anchor_grid).unwrap().get_grid_metrics();
        let grid_metrics = self.grids.get(&e.grid).unwrap().get_grid_metrics();
        let base_metrics = self.grids.get(&BASE_GRID).unwrap().get_grid_metrics();
        let rect = place_float(
            e.anchor,
            offset_x,
            offset_y,
            anchor_metrics,
            e.anchor_row,
            e.anchor_col,
            grid_metrics,
        );
        let mut actions: Vec<Action> = Vec::new();
        match fit_float(grid_metrics, base_metrics, rect.x, rect.y) {
            Some((cols, rows)) => {
                actions.push(Action::ResizeGrid { grid: e.grid, cols, rows });
            },
            None => {},
        }
        let mut window = self.window_or_new(e.grid, e.win, WindowKind::Floating);
        window.place(WindowKind::Floating, rect);
        self.windows.insert(e.grid, window);
        actions.push(Action::WindowPlaced { grid: e.grid, rect });
        assert(actions@ =~= old(self)@.window_float_pos(e)->Ok_0.actions);
        Ok(actions)
    }

    /// Makes the window of a grid an external one.
    pub fn window_external_pos(&mut self, e: WindowExternalPos) -> (r: Result<
        Vec<Action>,
        ProtocolError,
    >)
        requires
            old(self)@.wf(),
        ensures
            final(self)@.wf(),
            refines(old(self)@, final(self)@, r, old(self)@.window_external_pos(e)),
    {
        if !self.grids.contains_key(&e.grid) {
            return Err(ProtocolError::UnknownGrid(e.grid));
        }
        assert(self@.grids.contains_key(e.grid));
        let metrics = self.grids.get(&e.grid).unwrap().get_grid_metrics();
        let width = to_px(metrics.width());
        let height = to_px(metrics.height());
        let mut window = self.window_or_new(e.grid, e.win, WindowKind::External);
        window.set_external(width, height);
        self.windows.insert(e.grid, window);
        let mut actions: Vec<Action> = Vec::new();
        actions.push(Action::WindowExternal { grid: e.grid, width, height });
        assert(actions@ =~= old(self)@.window_external_pos(e)->Ok_0.actions);
        Ok(actions)
    }

    /// Marks a window as not shown.
    pub fn window_hide(&mut self, grid: i64) -> (r: Result<Vec<Action>, ProtocolError>)
        requires
            old(self)@.wf(),
        ensures
            final(self)@.wf(),
            refines(old(self)@, final(self)@, r, old(self)@.window_hide(grid)),
    {
        let mut window = match self.windows.get(&grid) {
            Some(window) => *window,
            None => {
                return Err(ProtocolError::UnknownWindow(grid));
            },
        };
        window.conceal();
        self.windows.insert(grid, window);
        let mut actions: Vec<Action> = Vec::new();
        actions.push(Action::WindowHidden(grid));
        assert(actions@ =~= old(self)@.window_hide(grid)->Ok_0.actions);
        Ok(actions)
    }

    /// Removes a window. Its grid stays.
    pub fn window_close(&mut self, grid: i64) -> (r: Result<Vec<Action>, ProtocolError>)
        requires
            old(self)@.wf(),
        ensures
            final(self)@.wf(),
            refines(old(self)@, final(self)@, r, old(self)@.window_close(grid)),
    {
        if !self.windows.contains_key(&grid) {
            return Err(ProtocolError::UnknownWindow(grid));
        }
        self.windows.remove(&grid);
        let mut actions: Vec<Action> = Vec::new();
        actions.push(Action::WindowClosed(grid));
        assert(actions@ =~= old(self)@.window_close(grid)->Ok_0.actions);
        Ok(actions)
    }

    /// Has the message window put over the rows from the given one down.
    pub fn msg_set_pos(&mut self, e: MsgSetPos) -> (r: Result<Vec<Action>, ProtocolError>)
        requires
            old(self)@.wf(),
        ensures
            final(self)@.wf(),
            refines(old(self)@, final(self)@, r, old(self)@.msg_set_pos(e)),
    {
        if !self.grids.contains_key(&e.grid) {
            return Err(ProtocolError::UnknownGrid(e.grid));
        }
        assert(self@.grids.contains_key(BASE_GRID));
        let base = self.grids.get(&BASE_GRID).unwrap().get_grid_metrics();
        self.only(Action::MsgWindowSetPos { grid: e.grid, row: e.row, height: message_height(base, e.row) })
    }

    /// Applies one redraw event.
    pub fn handle_redraw_event(&mut self, event: RedrawEvent) -> (r: Result<
        Vec<Action>,
        ProtocolError,
    >)
        requires
            old(self)@.wf(),
        ensures
            final(self)@.wf(),
            refines(old(self)@, final(self)@, r, old(self)@.redraw(event)),
    {
        reveal(Model::redraw);
        match event {
            RedrawEvent::SetTitle(title) => self.set_title(title),
            RedrawEvent::GridLine(line) => self.grid_line(line),
            RedrawEvent::GridCursorGoto(e) => self.grid_cursor_goto(e),
            RedrawEvent::GridResize(e) => self.grid_resize(e),
            RedrawEvent::GridClear(grid) => self.grid_clear(grid),
            RedrawEvent::GridDestroy(grid) => self.grid_destroy(grid),
            RedrawEvent::GridScroll(e) => self.grid_scroll(e),
            RedrawEvent::DefaultColorsSet(e) => self.default_colors_set(e),
            RedrawEvent::HlAttrDefine(e) => self.hl_attr_define(e),
            RedrawEvent::HlGroupSet(e) => self.hl_group_set(e),
            RedrawEvent::OptionSet(opt) => self.option_set(opt),
            RedrawEvent::ModeInfoSet(e) => self.mode_info_set(e),
            RedrawEvent::ModeChange(e) => self.mode_change(e),
            RedrawEvent::SetBusy(busy) => self.set_busy(busy),
            RedrawEvent::Flush => self.flush(),
            RedrawEvent::PopupmenuShow(e) => self.popupmenu_show(e),
            RedrawEvent::PopupmenuHide => self.popupmenu_hide(),
            RedrawEvent::PopupmenuSelect(selected) => self.popupmenu_select(selected),
            RedrawEvent::TablineUpdate(e) => self.tabline_update(e),
            RedrawEvent::CmdlineShow(e) => self.cmdline_show(e),
            RedrawEvent::CmdlineHide => self.cmdline_hide(),
            RedrawEvent::CmdlinePos(e) => self.cmdline_pos(e),
            RedrawEvent::CmdlineSpecialChar(e) => self.cmdline_special_char(e),
            RedrawEvent::CmdlineBlockShow(e) => self.cmdline_block_show(e),
            RedrawEvent::CmdlineBlockAppend(e) => self.cmdline_block_append(e),
            RedrawEvent::CmdlineBlockHide => self.cmdline_block_hide(),
            RedrawEvent::WildmenuShow(e) => self.wildmenu_show(e),
            RedrawEvent::WildmenuHide => self.wildmenu_hide(),
            RedrawEvent::WildmenuSelect(item) => self.wildmenu_select(item),
            RedrawEvent::WindowPos(e) => self.window_pos(e),
            RedrawEvent::WindowFloatPos(e) => self.window_float_pos(e),
            RedrawEvent::WindowExternalPos(e) => self.window_external_pos(e),
            RedrawEvent::WindowHide(grid) => self.window_hide(grid),
            RedrawEvent::WindowClose(grid) => self.window_close(grid),
            RedrawEvent::MsgSetPos(e) => self.msg_set_pos(e),
            RedrawEvent::Ignored(_) => Ok(Vec::new()),
            RedrawEvent::Unknown(_) => Ok(Vec::new()),
        }
    }

    /// Applies one event of the client's own protocol.
    pub fn handle_gnvim_event(&mut self, event: GnvimEvent) -> (actions: Vec<Action>)
        requires
            old(self)@.wf(),
        ensures
            final(self)@.wf(),
            final(self)@ == old(self)@.gnvim(event).model,
            actions@ == old(self)@.gnvim(event).actions,
    {
        let mut actions: Vec<Action> = Vec::new();
        match event {
            GnvimEvent::CompletionMenuToggleInfo => {
                actions.push(Action::PopupmenuToggleInfo);
            },
            GnvimEvent::PopupmenuWidth(width) => {
                actions.push(Action::PopupmenuSetWidth(width));
            },
            GnvimEvent::PopupmenuWidthDetails(width) => {
                actions.push(Action::PopupmenuSetWidthDetails(width));
            },
            GnvimEvent::PopupmenuShowMenuOnAllItems(show) => {
                actions.push(Action::PopupmenuShowMenuOnAllItems(show));
            },
            GnvimEvent::Unknown(_) => {},
            GnvimEvent::CursorTooltipLoadStyle(path) => {
                if self.cursor_tooltip.is_some() {
                    actions.push(Action::TooltipLoadStyle(path));
                } else {
                    actions.push(Action::Command(Command::EchoTooltipUnsupported));
                }
            },
            GnvimEvent::CursorTooltipShow(content, row, col) => {
                if self.cursor_tooltip.is_some() {
                    assert(self@.grids.contains_key(self.current_grid));
                    let rect = self.grids.get(&self.current_grid).unwrap().get_rect_for_cell(
                        row,
                        col,
                    );
                    self.cursor_tooltip = Some(CursorTooltip { visible: true });
                    actions.push(Action::TooltipShow(content));
                    actions.push(Action::TooltipMoveTo(rect));
                } else {
                    actions.push(Action::Command(Command::EchoTooltipUnsupported));
                }
            },
            GnvimEvent::CursorTooltipHide => {
                if self.cursor_tooltip.is_some() {
                    self.cursor_tooltip = Some(CursorTooltip { visible: false });
                    actions.push(Action::TooltipHide);
                } else {
                    actions.push(Action::Command(Command::EchoTooltipUnsupported));
                }
            },
            GnvimEvent::CursorTooltipSetStyle(style) => {
                if self.cursor_tooltip.is_some() {
                    actions.push(Action::TooltipSetStyle(style));
                } else {
                    actions.push(Action::Command(Command::EchoTooltipUnsupported));
                }
            },
        }
        assert(actions@ =~= old(self)@.gnvim(event).actions);
        actions
    }

    /// Applies one notification from the editor: a batch of redraw events,
    /// each in its turn, or one event of the client's own protocol. A
    /// violation of the protocol ends the batch; the events before it stay
    /// applied, and their actions are returned with the error.
    pub fn handle_notify(&mut self, notify: Notify) -> (outcome: Outcome)
        requires
            old(self)@.wf(),
        ensures
            final(self)@.wf(),
            final(self)@ == old(self)@.notify(notify).model,
            outcome.actions@ == old(self)@.notify(notify).actions,
            outcome.error == old(self)@.notify(notify).error,
    {
        match notify {
            Notify::RedrawEvent(events) => {
                let ghost all = events@;
                let ghost start = self@;
                let mut actions: Vec<Action> = Vec::new();
                assert(all.skip(0) =~= all);
                assert(old(self)@.notify(notify) == start.batch(all));
                for event in it: events
                    invariant
                        it.seq() == all,
                        self@.wf(),
                        old(self)@.notify(notify) == start.batch(all),
                        start.batch(all).model == self@.batch(all.skip(it.index())).model,
                        start.batch(all).actions == actions@ + self@.batch(
                            all.skip(it.index()),
                        ).actions,
                        start.batch(all).error == self@.batch(all.skip(it.index())).error,
                {
                    let ghost rest = all.skip(it.index());
                    assert(rest[0] == event);
                    assert(rest.drop_first() =~= all.skip(it.index() + 1));
                    let ghost before = self@;
                    match self.handle_redraw_event(event) {
                        Ok(mut more) => {
                            let ghost step = before.redraw(event)->Ok_0;
                            assert(actions@ + (more@ + step.model.batch(rest.drop_first()).actions)
                                =~= (actions@ + more@) + step.model.batch(
                                rest.drop_first(),
                            ).actions);
                            actions.append(&mut more);
                        },
                        Err(error) => {
                            assert(actions@ + Seq::<Action>::empty() =~= actions@);
                            return Outcome { actions, error: Some(error) };
                        },
                    }
                }
                assert(all.skip(all.len() as int) =~= Seq::<RedrawEvent>::empty());
                assert(actions@ + Seq::<Action>::empty() =~= actions@);
                Outcome { actions, error: None }
            },
            Notify::GnvimEvent(Ok(event)) => {
                let actions = self.handle_gnvim_event(event);
                Outcome { actions, error: None }
            },
            Notify::GnvimEvent(Err(err)) => {
                let mut actions: Vec<Action> = Vec::new();
                actions.push(Action::Command(Command::EchoNotifyParseFailed(err)));
                assert(actions@ =~= old(self)@.notify(notify).actions);
                Outcome { actions, error: None }
            },
        }
    }

    /// Notes that a request to resize the editor's screen waits for the
    /// timer `timer`. A request that waited before is given up; the action
    /// returned cancels its timer.
    pub fn schedule_resize(&mut self, timer: u64, cols: i64, rows: i64) -> (actions: Vec<Action>)
        requires
            old(self)@.wf(),
        ensures
            final(self)@.wf(),
            final(self)@ == old(self)@.schedule_resize(timer, cols, rows).model,
            actions@ == old(self)@.schedule_resize(timer, cols, rows).actions,
    {
        let mut actions: Vec<Action> = Vec::new();
        match self.resize_source_id {
            Some(pending) => {
                actions.push(Action::CancelResizeTimer(pending.timer));
            },
            None => {},
        }
        self.resize_source_id = Some(PendingResize { timer, cols, rows });
        assert(actions@ =~= old(self)@.schedule_resize(timer, cols, rows).actions);
        actions
    }

    /// The timer `timer` fired: its request goes out, unless another
    /// request or a flush has replaced it since.
    pub fn resize_timer_fired(&mut self, timer: u64) -> (actions: Vec<Action>)
        requires
            old(self)@.wf(),
        ensures
            final(self)@.wf(),
            final(self)@ == old(self)@.resize_timer_fired(timer).model,
            actions@ == old(self)@.resize_timer_fired(timer).actions,
    {
        let mut actions: Vec<Action> = Vec::new();
        match self.resize_source_id {
            Some(pending) => {
                if pending.timer == timer {
                    self.resize_source_id = None;
                    actions.push(Action::ResizeScreen { cols: pending.cols, rows: pending.rows });
                }
            },
            None => {},
        }
        assert(actions@ =~= old(self)@.resize_timer_fired(timer).actions);
        actions
    }

    /// Records the extent of the surface that the embedder gave a grid.
    pub fn set_grid_allocation(&mut self, grid: i64, width: u32, height: u32) -> (r: Result<
        Vec<Action>,
        ProtocolError,
    >)
        requires
            old(self)@.wf(),
        ensures
            final(self)@.wf(),
            refines(old(self)@, final(self)@, r, old(self)@.set_grid_allocation(grid, width, height)),
    {
        if !self.grids.contains_key(&grid) {
            return Err(ProtocolError::UnknownGrid(grid));
        }
        proof {
            assert(self@.grids.contains_key(grid));
            crate::model::lemma_replace_grid_wf(
                self@,
                grid,
                self@.grids[grid].set_allocation(width, height),
            );
        }
        let mut g = take_grid(&mut self.grids, grid);
        g.set_allocation(width, height);
        put_grid(&mut self.grids, grid, g);
        assert(self@.grids =~= old(self)@.grids.insert(
            grid,
            old(self)@.grids[grid].set_allocation(width, height),
        ));
        Ok(Vec::new())
    }

    /// What to do where the tooltip's style could not be loaded: tell the
    /// user why.
    pub fn tooltip_style_failed(&self, err: String) -> (actions: Vec<Action>)
        ensures
            actions@ == seq![Action::Command(Command::EchoTooltipStyleFailed(err))],
    {
        let mut actions: Vec<Action> = Vec::new();
        actions.push(Action::Command(Command::EchoTooltipStyleFailed(err)));
        actions
    }
}

} // verus!
