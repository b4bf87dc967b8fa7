//! What holds of the model whatever the editor sends.

use crate::action::Action;
use crate::color::HlDefsView;
use crate::error::ProtocolError;
use crate::event::{
    DefaultColorsSet, GridResize, HlGroupSet, OptionSet, RedrawEvent, WindowExternalPos,
    WindowFloatPos, WindowPos,
};
use crate::font::Font;
use crate::grid::{render_row, CellView, GridView};
use crate::group::{lemma_ungrouped_in_order, ungrouped, RedrawGroup};
use crate::model::{color_actions, names_group, Batch, Model, PendingResize, BASE_GRID};
use vstd::prelude::*;

verus! {

/// Destroying the current grid leaves the base grid current, and the grid
/// is gone. It cannot be done twice in a row: the same grid is unknown by
/// then, and the grid that is current by then is the base grid, which
/// cannot be destroyed. Destroying the base grid is refused at once.
pub proof fn lemma_destroy_current_grid(m: Model)
    requires
        m.wf(),
    ensures
        match m.grid_destroy(m.current_grid) {
            Ok(step) => {
                &&& m.current_grid != BASE_GRID
                &&& step.model.current_grid == BASE_GRID
                &&& step.model.grids.contains_key(BASE_GRID)
                &&& step.model.grids[BASE_GRID].active
                &&& !step.model.grids.contains_key(m.current_grid)
                &&& step.model.grid_destroy(m.current_grid) == Err::<crate::model::Step, _>(
                    ProtocolError::UnknownGrid(m.current_grid),
                )
                &&& step.model.grid_destroy(step.model.current_grid) == Err::<crate::model::Step, _>(
                    ProtocolError::BaseGridDestroyed,
                )
            },
            Err(error) => m.current_grid == BASE_GRID && error == ProtocolError::BaseGridDestroyed,
        },
{
}

/// Destroying a grid that is not current leaves the current grid as it
/// was.
pub proof fn lemma_destroy_other_grid(m: Model, grid: i64)
    requires
        m.wf(),
        grid != m.current_grid,
    ensures
        m.grid_destroy(grid) matches Ok(step) ==> step.model.current_grid == m.current_grid,
{
}

/// A flush hands fonts and line spacing on exactly where an option asked
/// for one since the last flush, and colours exactly where a group was
/// bound since the last flush. With neither, it asks nothing of anybody.
pub proof fn lemma_flush_propagates_on_demand(m: Model)
    requires
        m.wf(),
    ensures
        m.flush() is Ok,
        m.resize_on_flush is None && !m.hl_groups_changed ==> m.flush()->Ok_0.actions.len() == 0,
        forall|i: int|
            0 <= i < m.flush()->Ok_0.actions.len() ==> {
                let action = #[trigger] m.flush()->Ok_0.actions[i];
                action.is_propagation() || action is CancelResizeTimer || action is ResizeScreen
            },
        m.resize_on_flush is None ==> forall|i: int|
            0 <= i < m.flush()->Ok_0.actions.len() ==> {
                let action = #[trigger] m.flush()->Ok_0.actions[i];
                action is PopupmenuSetColors || action is TablineSetColors
                    || action is CmdlineSetColors || action is WildmenuSetColors
            },
        !m.hl_groups_changed ==> forall|i: int|
            0 <= i < m.flush()->Ok_0.actions.len() ==> {
                let action = #[trigger] m.flush()->Ok_0.actions[i];
                !(action is PopupmenuSetColors || action is TablineSetColors
                    || action is CmdlineSetColors || action is WildmenuSetColors)
            },
        m.flush()->Ok_0.model.resize_on_flush is None,
        !m.flush()->Ok_0.model.hl_groups_changed,
{
}

/// After a flush nothing waits: a second flush right after it only
/// displays the grids again, and asks nothing of anybody.
pub proof fn lemma_flush_consumes_once(m: Model)
    requires
        m.wf(),
    ensures
        m.flush()->Ok_0.model.flush()->Ok_0.actions.len() == 0,
{
}

/// Of two fonts asked for between flushes, the later wins: the state is
/// the one that the later option alone leads to.
pub proof fn lemma_last_font_wins(m: Model, first: Option<Font>, second: Option<Font>)
    ensures
        m.option_set(OptionSet::GuiFont(first))->Ok_0.model.option_set(OptionSet::GuiFont(second))
            == m.option_set(OptionSet::GuiFont(second)),
{
}

/// Of two line spacings asked for between flushes, the later wins.
pub proof fn lemma_last_line_space_wins(m: Model, first: i64, second: i64)
    ensures
        m.option_set(OptionSet::LineSpace(first))->Ok_0.model.option_set(
            OptionSet::LineSpace(second),
        ) == m.option_set(OptionSet::LineSpace(second)),
{
}

/// A font and a line spacing asked for between flushes are both applied,
/// in whichever order they came.
pub proof fn lemma_font_and_line_space_combine(m: Model, font: Option<Font>, line_space: i64)
    ensures
        m.option_set(OptionSet::GuiFont(font))->Ok_0.model.option_set(
            OptionSet::LineSpace(line_space),
        ) == m.option_set(OptionSet::LineSpace(line_space))->Ok_0.model.option_set(
            OptionSet::GuiFont(font),
        ),
{
}

/// The events that ask for the fonts `fonts`, one after the other.
pub open spec fn font_events(fonts: Seq<Option<Font>>) -> Seq<RedrawEvent> {
    Seq::new(fonts.len(), |i: int| RedrawEvent::OptionSet(OptionSet::GuiFont(fonts[i])))
}

/// However many fonts a batch asks for, it leaves the state that its last
/// font alone leads to, and no action: the flush that follows applies one
/// font, once.
pub proof fn lemma_fonts_collapse(m: Model, fonts: Seq<Option<Font>>)
    requires
        fonts.len() > 0,
    ensures
        m.batch(font_events(fonts)).error is None,
        m.batch(font_events(fonts)).actions.len() == 0,
        m.batch(font_events(fonts)).model == m.option_set(
            OptionSet::GuiFont(fonts.last()),
        )->Ok_0.model,
    decreases fonts.len(),
{
    reveal(Model::redraw);
    let events = font_events(fonts);
    let first = m.option_set(OptionSet::GuiFont(fonts[0]))->Ok_0.model;
    assert(m.redraw(events[0]) == m.option_set(OptionSet::GuiFont(fonts[0])));
    if fonts.len() == 1 {
        assert(events.drop_first() =~= Seq::<RedrawEvent>::empty());
        assert(first.batch(events.drop_first()).actions.len() == 0);
    } else {
        assert(events.drop_first() =~= font_events(fonts.drop_first()));
        lemma_fonts_collapse(first, fonts.drop_first());
        assert(fonts.drop_first().last() == fonts.last());
        lemma_last_font_wins(m, fonts[0], fonts.last());
    }
}

/// A second request to resize the editor's screen replaces the first: the
/// first one's timer is cancelled, only the second waits, and of the two
/// timers only the second sends anything when it fires, once.
pub proof fn lemma_second_schedule_cancels_first(
    m: Model,
    first: PendingResize,
    second: PendingResize,
)
    requires
        first.timer != second.timer,
    ensures
        ({
            let one = m.schedule_resize(first.timer, first.cols, first.rows).model;
            let two = one.schedule_resize(second.timer, second.cols, second.rows);
            &&& one.resize_source_id == Some(first)
            &&& two.actions == seq![Action::CancelResizeTimer(first.timer)]
            &&& two.model.resize_source_id == Some(second)
            &&& two.model.resize_timer_fired(first.timer).actions.len() == 0
            &&& two.model.resize_timer_fired(first.timer).model == two.model
            &&& two.model.resize_timer_fired(second.timer).actions == seq![
                Action::ResizeScreen { cols: second.cols, rows: second.rows },
            ]
            &&& two.model.resize_timer_fired(second.timer).model.resize_source_id is None
            &&& two.model.resize_timer_fired(second.timer).model.resize_timer_fired(
                second.timer,
            ).actions.len() == 0
        }),
{
}

/// A flush that applies a font or a line spacing gives up the request that
/// waits for its timer: the timer is cancelled first of all, and when it
/// fires all the same, nothing is sent.
pub proof fn lemma_flush_cancels_pending_resize(m: Model, timer: u64)
    requires
        m.wf(),
        m.resize_on_flush is Some,
        m.resize_source_id is Some,
    ensures
        m.flush()->Ok_0.actions[0] == Action::CancelResizeTimer(m.resize_source_id->0.timer),
        m.flush()->Ok_0.model.resize_source_id is None,
        m.flush()->Ok_0.model.resize_timer_fired(timer).actions.len() == 0,
{
}

/// Moving a region and then moving it back by the same amount restores
/// every cell of the region that stayed inside it on the way, and leaves
/// empty every cell whose content had to leave the region. Cells outside
/// the region are never touched.
pub proof fn lemma_scroll_round_trip(
    grid: GridView,
    top: u64,
    bot: u64,
    left: u64,
    right: u64,
    rows: i64,
    cols: i64,
)
    requires
        grid.wf(),
        grid.region_ok(top, bot, left, right),
        rows > i64::MIN,
        cols > i64::MIN,
    ensures
        ({
            let back = grid.scroll(top, bot, left, right, rows, cols).scroll(
                top,
                bot,
                left,
                right,
                (-rows) as i64,
                (-cols) as i64,
            );
            &&& back.wf()
            &&& back.width == grid.width
            &&& back.height == grid.height
            &&& forall|r: int, c: int|
                0 <= r < grid.height && 0 <= c < grid.width ==> #[trigger] back.cells[r][c] == if top
                    <= r < bot && left <= c < right && !(top <= r + rows < bot && left <= c + cols
                    < right) {
                    CellView::blank()
                } else {
                    grid.cells[r][c]
                }
        }),
{
}

/// A scroll by nothing changes no cell.
pub proof fn lemma_scroll_by_nothing(grid: GridView, top: u64, bot: u64, left: u64, right: u64)
    requires
        grid.wf(),
        grid.region_ok(top, bot, left, right),
    ensures
        grid.scroll(top, bot, left, right, 0, 0).cells == grid.cells,
{
    let after = grid.scroll(top, bot, left, right, 0, 0);
    assert forall|r: int| 0 <= r < grid.height implies #[trigger] after.cells[r] == grid.cells[r] by {
        assert(after.cells[r] =~= grid.cells[r]);
    }
    assert(after.cells =~= grid.cells);
}

/// The grid after the resizes `sizes`, each to (width, height), one after
/// the other.
pub open spec fn resize_all(grid: GridView, sizes: Seq<(u64, u64)>) -> GridView
    decreases sizes.len(),
{
    if sizes.len() == 0 {
        grid
    } else {
        resize_all(grid, sizes.drop_last()).resize(sizes.last().0, sizes.last().1)
    }
}

/// The least of `width` and all the widths in `sizes`.
pub open spec fn least_width(width: u64, sizes: Seq<(u64, u64)>) -> u64
    decreases sizes.len(),
{
    if sizes.len() == 0 {
        width
    } else if sizes.last().0 < least_width(width, sizes.drop_last()) {
        sizes.last().0
    } else {
        least_width(width, sizes.drop_last())
    }
}

/// The least of `height` and all the heights in `sizes`.
pub open spec fn least_height(height: u64, sizes: Seq<(u64, u64)>) -> u64
    decreases sizes.len(),
{
    if sizes.len() == 0 {
        height
    } else if sizes.last().1 < least_height(height, sizes.drop_last()) {
        sizes.last().1
    } else {
        least_height(height, sizes.drop_last())
    }
}

/// After any sequence of resizes a grid has exactly the size asked for
/// last. A cell keeps its content where it was inside the grid at every
/// size on the way, and is empty otherwise.
pub proof fn lemma_resize_sequence(grid: GridView, sizes: Seq<(u64, u64)>)
    requires
        grid.wf(),
    ensures
        ({
            let after = resize_all(grid, sizes);
            &&& after.wf()
            &&& after.id == grid.id
            &&& after.active == grid.active
            &&& sizes.len() > 0 ==> after.width == sizes.last().0 && after.height == sizes.last().1
            &&& least_width(grid.width, sizes) <= after.width
            &&& least_height(grid.height, sizes) <= after.height
            &&& forall|r: int, c: int|
                0 <= r < after.height && 0 <= c < after.width ==> #[trigger] after.cells[r][c] == if r
                    < least_height(grid.height, sizes) && c < least_width(grid.width, sizes) {
                    grid.cells[r][c]
                } else {
                    CellView::blank()
                }
        }),
    decreases sizes.len(),
{
    if sizes.len() > 0 {
        lemma_resize_sequence(grid, sizes.drop_last());
        let before = resize_all(grid, sizes.drop_last());
        let after = resize_all(grid, sizes);
        assert(after == before.resize(sizes.last().0, sizes.last().1));
        assert forall|r: int, c: int| 0 <= r < after.height && 0 <= c < after.width implies #[trigger] after.cells[r][c]
            == if r < least_height(grid.height, sizes) && c < least_width(grid.width, sizes) {
            grid.cells[r][c]
        } else {
            CellView::blank()
        } by {
            if r < before.height && c < before.width {
                assert(after.cells[r][c] == before.cells[r][c]);
            }
        }
    }
}

/// The resize events for the grid `id` that ask for the sizes `sizes`, one
/// after the other.
pub open spec fn resize_events(id: i64, sizes: Seq<(u64, u64)>) -> Seq<RedrawEvent> {
    Seq::new(
        sizes.len(),
        |i: int|
            RedrawEvent::GridResize(GridResize { grid: id, width: sizes[i].0, height: sizes[i].1 }),
    )
}

/// Resizing first to one size and then through the others is resizing
/// through all of them.
pub proof fn lemma_resize_all_from_front(grid: GridView, sizes: Seq<(u64, u64)>)
    requires
        sizes.len() > 0,
    ensures
        resize_all(grid, sizes) == resize_all(
            grid.resize(sizes[0].0, sizes[0].1),
            sizes.drop_first(),
        ),
    decreases sizes.len(),
{
    if sizes.len() == 1 {
        assert(sizes.drop_last() =~= Seq::<(u64, u64)>::empty());
        assert(sizes.drop_first() =~= Seq::<(u64, u64)>::empty());
        assert(resize_all(grid, sizes.drop_last()) == grid);
    } else {
        lemma_resize_all_from_front(grid, sizes.drop_last());
        assert(sizes.drop_last().drop_first() =~= sizes.drop_first().drop_last());
        assert(sizes.drop_last()[0] == sizes[0]);
        assert(sizes.drop_first().last() == sizes.last());
    }
}

/// A batch of resize events for one grid never fails and leaves that grid
/// as the resizes make it, one after the other: at the size asked for
/// last, with the content that stayed inside at every size on the way. A
/// grid that did not exist starts empty.
pub proof fn lemma_resize_events(m: Model, id: i64, sizes: Seq<(u64, u64)>)
    requires
        m.wf(),
        sizes.len() > 0,
    ensures
        ({
            let batch = m.batch(resize_events(id, sizes));
            let start = if m.grids.contains_key(id) {
                m.grids[id]
            } else {
                m.fresh_grid(GridResize { grid: id, width: sizes[0].0, height: sizes[0].1 })
            };
            &&& batch.error is None
            &&& batch.model.grids.contains_key(id)
            &&& batch.model.grids[id] == resize_all(start, sizes)
            &&& batch.model.grids[id].width == sizes.last().0
            &&& batch.model.grids[id].height == sizes.last().1
        }),
    decreases sizes.len(),
{
    reveal(Model::redraw);
    let events = resize_events(id, sizes);
    let first = GridResize { grid: id, width: sizes[0].0, height: sizes[0].1 };
    assert(events[0] == RedrawEvent::GridResize(first));
    let start = if m.grids.contains_key(id) {
        m.grids[id]
    } else {
        m.fresh_grid(first)
    };
    let next = m.grid_resize(first)->Ok_0.model;
    crate::model::lemma_grid_resize_wf(m, first);
    assert(next.grids.contains_key(id));
    assert(next.grids[id] == start.resize(first.width, first.height)) by {
        if !m.grids.contains_key(id) {
            let fresh = m.fresh_grid(first);
            assert(fresh.resize(first.width, first.height).cells =~~= fresh.cells);
        }
    }
    lemma_resize_all_from_front(start, sizes);
    assert(events.drop_first() =~= resize_events(id, sizes.drop_first()));
    if sizes.len() == 1 {
        assert(sizes.drop_first() =~= Seq::<(u64, u64)>::empty());
        assert(events.drop_first().len() == 0);
    } else {
        lemma_resize_events(next, id, sizes.drop_first());
        assert(sizes.drop_first().last() == sizes.last());
    }
    assert(start.wf());
    lemma_resize_sequence(start, sizes);
}

/// Only a flush changes what a grid displays. Whatever else the editor
/// sends, a grid that was there before the event and is there after it
/// displays what it displayed.
pub proof fn lemma_display_changes_at_flush_only(m: Model, event: RedrawEvent, grid: i64)
    requires
        m.wf(),
        event != RedrawEvent::Flush,
        m.grids.contains_key(grid),
    ensures
        m.redraw(event) matches Ok(step) ==> (step.model.grids.contains_key(grid)
            ==> step.model.grids[grid].rendered == m.grids[grid].rendered),
{
    reveal(Model::redraw);
}

/// A grid that an event creates displays nothing before the next flush.
pub proof fn lemma_new_grid_displays_nothing(m: Model, e: GridResize)
    requires
        !m.grids.contains_key(e.grid),
    ensures
        m.grid_resize(e)->Ok_0.model.grids[e.grid].rendered.len() == 0,
        forall|r: int| 0 <= r < e.height ==> m.grid_resize(e)->Ok_0.model.grids[e.grid].dirty[r],
{
}

/// A flush leaves no row dirty and displays every row in full. A row that
/// was dirty is displayed as the buffer has it, under the highlight table
/// of that moment.
pub proof fn lemma_flush_displays_dirty_rows(grid: GridView, hl: HlDefsView)
    requires
        grid.wf(),
    ensures
        grid.flush(hl).wf(),
        grid.flush(hl).cells == grid.cells,
        grid.flush(hl).rendered.len() == grid.height,
        forall|r: int|
            0 <= r < grid.height ==> {
                &&& !(#[trigger] grid.flush(hl).dirty[r])
                &&& grid.flush(hl).rendered[r].len() == grid.width
                &&& grid.dirty[r] ==> grid.flush(hl).rendered[r] == render_row(grid.cells[r], hl)
                &&& !grid.dirty[r] ==> grid.flush(hl).rendered[r] == grid.rendered[r]
            },
{
}

/// New default colours reach the display with the next flush: every grid
/// then displays its whole buffer under the new table. No cell changes its
/// highlight id on the way.
pub proof fn lemma_default_colours_reach_the_display(m: Model, e: DefaultColorsSet, grid: i64)
    requires
        m.wf(),
        m.grids.contains_key(grid),
    ensures
        ({
            let set = m.default_colors_set(e)->Ok_0.model;
            let shown = set.flush()->Ok_0.model;
            &&& set.hl_defs.resolve(0).fg == e.fg
            &&& set.hl_defs.resolve(0).bg == e.bg
            &&& set.hl_defs.resolve(0).sp == e.sp
            &&& set.grids.contains_key(grid)
            &&& set.grids[grid].cells == m.grids[grid].cells
            &&& set.grids[grid].rendered == m.grids[grid].rendered
            &&& shown.grids.contains_key(grid)
            &&& shown.grids[grid].cells == m.grids[grid].cells
            &&& forall|r: int|
                0 <= r < m.grids[grid].height ==> #[trigger] shown.grids[grid].rendered[r]
                    == render_row(m.grids[grid].cells[r], set.hl_defs)
        }),
{
}

/// Fonts, line spacing and colours are handed on to the auxiliary surfaces
/// by a flush and by nothing else.
pub proof fn lemma_only_flush_propagates(m: Model, event: RedrawEvent)
    requires
        event != RedrawEvent::Flush,
    ensures
        m.redraw(event) matches Ok(step) ==> forall|i: int|
            0 <= i < step.actions.len() ==> !(#[trigger] step.actions[i]).is_propagation(),
{
    reveal(Model::redraw);
}

/// The outcome of a first part of a batch, then of the rest applied to
/// what the first part left.
pub open spec fn then(first: Batch, rest: Seq<RedrawEvent>) -> Batch {
    if first.error is Some {
        first
    } else {
        Batch {
            model: first.model.batch(rest).model,
            actions: first.actions + first.model.batch(rest).actions,
            error: first.model.batch(rest).error,
        }
    }
}

/// Events apply in the order in which they arrive, each to what the ones
/// before it left: applying a batch is applying any first part of it and
/// then the rest, unless the first part already ends in a violation.
pub proof fn lemma_batch_in_order(m: Model, first: Seq<RedrawEvent>, rest: Seq<RedrawEvent>)
    ensures
        m.batch(first + rest) == then(m.batch(first), rest),
    decreases first.len(),
{
    if first.len() == 0 {
        assert(first + rest =~= rest);
        assert(m.batch(first).actions + m.batch(rest).actions =~= m.batch(rest).actions);
    } else {
        let all = first + rest;
        assert(all[0] == first[0]);
        assert(all.drop_first() =~= first.drop_first() + rest);
        match m.redraw(first[0]) {
            Ok(step) => {
                lemma_batch_in_order(step.model, first.drop_first(), rest);
                let head = step.model.batch(first.drop_first());
                if head.error is None {
                    assert(step.actions + (head.actions + head.model.batch(rest).actions) =~= (
                    step.actions + head.actions) + head.model.batch(rest).actions);
                }
            },
            Err(_) => {},
        }
    }
}

/// A batch that ends in a violation went no further than the event that
/// caused it: what follows that event changes nothing and asks nothing.
pub proof fn lemma_violation_ends_the_batch(
    m: Model,
    first: Seq<RedrawEvent>,
    rest: Seq<RedrawEvent>,
)
    requires
        m.batch(first).error is Some,
    ensures
        m.batch(first + rest) == m.batch(first),
{
    lemma_batch_in_order(m, first, rest);
}

/// Placing a normal window is idempotent: the same position event a second
/// time leaves the state that the first left, and asks for the same.
pub proof fn lemma_window_pos_idempotent(m: Model, e: WindowPos)
    requires
        m.wf(),
        m.window_pos(e) is Ok,
    ensures
        m.window_pos(e)->Ok_0.model.window_pos(e) == m.window_pos(e),
{
    let once = m.window_pos(e)->Ok_0.model;
    let twice = once.window_pos(e)->Ok_0.model;
    let grid = m.grids[e.grid];
    assert(grid.resize(e.width, e.height).resize(e.width, e.height).cells =~~= grid.resize(
        e.width,
        e.height,
    ).cells);
    assert(twice.grids =~= once.grids);
    assert(twice.windows =~= once.windows);
}

/// Placing a floating window is idempotent.
pub proof fn lemma_window_float_pos_idempotent(m: Model, e: WindowFloatPos)
    requires
        m.wf(),
        m.window_float_pos(e) is Ok,
        e.anchor_grid != e.grid,
    ensures
        m.window_float_pos(e)->Ok_0.model.window_float_pos(e) == m.window_float_pos(e),
{
    let once = m.window_float_pos(e)->Ok_0.model;
    let twice = once.window_float_pos(e)->Ok_0.model;
    assert(twice.windows =~= once.windows);
}

/// Placing an external window is idempotent.
pub proof fn lemma_window_external_pos_idempotent(m: Model, e: WindowExternalPos)
    requires
        m.wf(),
        m.window_external_pos(e) is Ok,
    ensures
        m.window_external_pos(e)->Ok_0.model.window_external_pos(e) == m.window_external_pos(e),
{
    let once = m.window_external_pos(e)->Ok_0.model;
    let twice = once.window_external_pos(e)->Ok_0.model;
    assert(twice.windows =~= once.windows);
}

/// A position event creates the window of a grid once; every later one
/// moves that window and keeps the editor's handle that it was created
/// with.
pub proof fn lemma_window_is_created_once(m: Model, first: WindowPos, second: WindowPos)
    requires
        m.wf(),
        first.grid == second.grid,
        m.window_pos(first) is Ok,
        !m.windows.contains_key(first.grid),
    ensures
        ({
            let once = m.window_pos(first)->Ok_0.model;
            let twice = once.window_pos(second)->Ok_0.model;
            &&& once.windows[first.grid].handle == first.win
            &&& once.window_pos(second) is Ok
            &&& twice.windows[first.grid].handle == first.win
            &&& twice.windows.dom() == once.windows.dom()
        }),
{
    let once = m.window_pos(first)->Ok_0.model;
    let twice = once.window_pos(second)->Ok_0.model;
    assert(twice.windows.dom() =~= once.windows.dom());
}

/// Hiding a window keeps it, and its place, in the registry; closing it
/// removes it and leaves its grid alone.
pub proof fn lemma_hidden_windows_stay(m: Model, grid: i64)
    requires
        m.windows.contains_key(grid),
    ensures
        ({
            let hidden = m.window_hide(grid)->Ok_0.model;
            let closed = m.window_close(grid)->Ok_0.model;
            &&& hidden.windows.contains_key(grid)
            &&& !hidden.windows[grid].visible
            &&& hidden.windows[grid].x == m.windows[grid].x
            &&& hidden.windows[grid].y == m.windows[grid].y
            &&& hidden.windows[grid].width == m.windows[grid].width
            &&& hidden.windows[grid].height == m.windows[grid].height
            &&& !closed.windows.contains_key(grid)
            &&& closed.grids == m.grids
            &&& closed.window_close(grid) == Err::<crate::model::Step, _>(
                ProtocolError::UnknownWindow(grid),
            )
        }),
{
}

/// A group-set event for a name that stands for no group is ignored: the
/// state is as it was, and the next flush hands on no colours on its
/// account.
pub proof fn lemma_unknown_group_is_ignored(m: Model, e: HlGroupSet)
    requires
        m.wf(),
        !names_group(e.name@),
    ensures
        m.hl_group_set(e) == m.quiet(),
        m.hl_group_set(e)->Ok_0.model.flush() == m.flush(),
{
}

/// A group-set event for a name that stands for a group makes the next
/// flush hand the groups' colours on, once.
pub proof fn lemma_known_group_reaches_the_surfaces(m: Model, e: HlGroupSet)
    requires
        m.wf(),
        m.resize_on_flush is None,
        names_group(e.name@),
    ensures
        ({
            let set = m.hl_group_set(e)->Ok_0.model;
            &&& set.hl_groups_changed
            &&& set.flush()->Ok_0.actions == color_actions(set.hl_defs)
            &&& set.flush()->Ok_0.model.flush()->Ok_0.actions.len() == 0
        }),
{
    let set = m.hl_group_set(e)->Ok_0.model;
    assert(set.flush()->Ok_0.actions =~= color_actions(set.hl_defs));
}

/// Groups apply in the order sent: applying a notification is applying
/// its first groups and then the rest, unless the first groups already end
/// in a violation.
pub proof fn lemma_groups_apply_in_order(m: Model, first: Seq<RedrawGroup>, rest: Seq<RedrawGroup>)
    ensures
        m.batch(ungrouped(first + rest)) == then(m.batch(ungrouped(first)), ungrouped(rest)),
{
    lemma_ungrouped_in_order(first, rest);
    lemma_batch_in_order(m, ungrouped(first), ungrouped(rest));
}

} // verus!
