//! The character grid: a buffer of cells that events write to, and the
//! picture of it that the last flush produced.
//!
//! Events only change the buffer and mark rows dirty. A flush turns every
//! dirty row into its displayed form, with each highlight id replaced by
//! the colours it stands for at that moment.

use crate::color::{HlDefs, HlDefsView, Style};
use crate::error::ProtocolError;
use crate::font::Font;
use crate::geometry::{clamp_px, scale, to_px, GridMetrics, Rect};
use crate::mode::ModeInfo;
use vstd::prelude::*;

verus! {

/// One cell of a grid.
#[derive(Debug, PartialEq, Eq)]
pub struct Cell {
    pub text: String,
    pub hl_id: u64,
    pub double_width: bool,
}

/// A cell as a mathematical value.
pub struct CellView {
    pub text: Seq<char>,
    pub hl_id: u64,
    pub double_width: bool,
}

impl CellView {
    /// The empty cell: one space in the default highlight.
    pub open spec fn blank() -> CellView {
        CellView { text: " "@, hl_id: 0, double_width: false }
    }
}

impl View for Cell {
    type V = CellView;

    open spec fn view(&self) -> CellView {
        CellView { text: self.text@, hl_id: self.hl_id, double_width: self.double_width }
    }
}

impl Clone for Cell {
    fn clone(&self) -> (cell: Cell)
        ensures
            cell == *self,
    {
        Cell { text: self.text.clone(), hl_id: self.hl_id, double_width: self.double_width }
    }
}

impl Cell {
    pub fn blank() -> (cell: Cell)
        ensures
            cell@ == CellView::blank(),
    {
        Cell { text: " ".to_owned(), hl_id: 0, double_width: false }
    }
}

/// One run of a line update: a cell and how often it repeats.
#[derive(Clone, Debug, PartialEq, Eq)]
pub struct LineCell {
    pub text: String,
    pub hl_id: u64,
    pub repeat: u64,
    pub double_width: bool,
}

impl LineCell {
    /// The cell that this run repeats.
    pub open spec fn cell(self) -> CellView {
        CellView { text: self.text@, hl_id: self.hl_id, double_width: self.double_width }
    }
}

/// A line update: runs of cells for one row, from `col_start` rightwards.
#[derive(Clone, Debug, PartialEq, Eq)]
pub struct GridLineSegment {
    pub grid: i64,
    pub row: u64,
    pub col_start: u64,
    pub cells: Vec<LineCell>,
}

/// A cell as it is displayed.
#[derive(Debug, PartialEq, Eq)]
pub struct Rendered {
    pub text: String,
    pub style: Style,
    pub double_width: bool,
}

/// A displayed cell as a mathematical value.
pub struct RenderedView {
    pub text: Seq<char>,
    pub style: Style,
    pub double_width: bool,
}

impl View for Rendered {
    type V = RenderedView;

    open spec fn view(&self) -> RenderedView {
        RenderedView { text: self.text@, style: self.style, double_width: self.double_width }
    }
}

/// The cells of one stored row.
pub open spec fn row_view(row: Seq<Cell>) -> Seq<CellView> {
    Seq::new(row.len(), |c: int| row[c]@)
}

/// The cells of all stored rows.
pub open spec fn rows_view(rows: Seq<Vec<Cell>>) -> Seq<Seq<CellView>> {
    Seq::new(rows.len(), |r: int| row_view(rows[r]@))
}

/// The cells of one displayed row.
pub open spec fn rendered_row_view(row: Seq<Rendered>) -> Seq<RenderedView> {
    Seq::new(row.len(), |c: int| row[c]@)
}

/// The cells of all displayed rows.
pub open spec fn rendered_view(rows: Seq<Vec<Rendered>>) -> Seq<Seq<RenderedView>> {
    Seq::new(rows.len(), |r: int| rendered_row_view(rows[r]@))
}

/// A row of `width` empty cells.
pub open spec fn blank_row(width: nat) -> Seq<CellView> {
    Seq::new(width, |c: int| CellView::blank())
}

/// `row` cut or padded with empty cells to `width`.
pub open spec fn fit_row(row: Seq<CellView>, width: nat) -> Seq<CellView> {
    Seq::new(
        width,
        |c: int|
            if c < row.len() {
                row[c]
            } else {
                CellView::blank()
            },
    )
}

/// The cells that the runs stand for: each run's cell `repeat` times, in
/// the order of the runs.
pub open spec fn decode(runs: Seq<LineCell>) -> Seq<CellView>
    decreases runs.len(),
{
    if runs.len() == 0 {
        Seq::empty()
    } else {
        decode(runs.drop_last()) + Seq::new(runs.last().repeat as nat, |i: int| runs.last().cell())
    }
}

/// `row` with `seg` written over it from column `start`.
pub open spec fn overwrite(row: Seq<CellView>, start: int, seg: Seq<CellView>) -> Seq<CellView> {
    Seq::new(
        row.len(),
        |c: int|
            if start <= c < start + seg.len() {
                seg[c - start]
            } else {
                row[c]
            },
    )
}

/// The cell at (`r`, `c`) after the region `top..bot` x `left..right` of
/// `cells` has moved by (`dr`, `dc`): inside the region, the cell that was
/// `dr` rows above and `dc` columns to the left, or an empty cell where
/// that place is outside the region; outside the region, the cell itself.
pub open spec fn scrolled_cell(
    cells: Seq<Seq<CellView>>,
    r: int,
    c: int,
    top: int,
    bot: int,
    left: int,
    right: int,
    dr: int,
    dc: int,
) -> CellView {
    if top <= r < bot && left <= c < right {
        if top <= r - dr < bot && left <= c - dc < right {
            cells[r - dr][c - dc]
        } else {
            CellView::blank()
        }
    } else {
        cells[r][c]
    }
}

/// The displayed form of one row under the table `hl`.
pub open spec fn render_row(row: Seq<CellView>, hl: HlDefsView) -> Seq<RenderedView> {
    Seq::new(
        row.len(),
        |c: int|
            RenderedView {
                text: row[c].text,
                style: hl.resolve(row[c].hl_id),
                double_width: row[c].double_width,
            },
    )
}

/// A grid as a mathematical value.
pub struct GridView {
    pub id: i64,
    pub width: u64,
    pub height: u64,
    /// The buffer: `height` rows of `width` cells.
    pub cells: Seq<Seq<CellView>>,
    /// For each row, whether it changed since it was last displayed.
    pub dirty: Seq<bool>,
    /// The rows as the last flush displayed them.
    pub rendered: Seq<Seq<RenderedView>>,
    pub cursor_row: u64,
    pub cursor_col: u64,
    pub active: bool,
    pub busy: bool,
    pub mode: Option<ModeInfo>,
    pub font: Font,
    pub line_space: i64,
    /// The extent of the surface that the embedder gave this grid.
    pub alloc_width: u32,
    pub alloc_height: u32,
}

impl GridView {
    /// The buffer has the grid's size, every row has a dirty mark, and every
    /// clean row is displayed in full.
    pub open spec fn wf(self) -> bool {
        &&& self.cells.len() == self.height
        &&& forall|r: int| 0 <= r < self.height ==> (#[trigger] self.cells[r]).len() == self.width
        &&& self.dirty.len() == self.height
        &&& forall|r: int|
            0 <= r < self.height && !(#[trigger] self.dirty[r]) ==> r < self.rendered.len()
                && self.rendered[r].len() == self.width
    }

    /// A new grid: empty cells, nothing displayed yet, cursor at the origin.
    pub open spec fn new(id: i64, font: Font, line_space: i64, width: u64, height: u64) -> GridView {
        GridView {
            id,
            width,
            height,
            cells: Seq::new(height as nat, |r: int| blank_row(width as nat)),
            dirty: Seq::new(height as nat, |r: int| true),
            rendered: Seq::empty(),
            cursor_row: 0,
            cursor_col: 0,
            active: false,
            busy: false,
            mode: None,
            font,
            line_space,
            alloc_width: 0,
            alloc_height: 0,
        }
    }

    /// The grid at a new size. A cell that exists before and after keeps its
    /// content, every other cell is empty. All rows are dirty; what is
    /// displayed stays until the next flush.
    pub open spec fn resize(self, width: u64, height: u64) -> GridView {
        GridView {
            width,
            height,
            cells: Seq::new(
                height as nat,
                |r: int|
                    if r < self.height {
                        fit_row(self.cells[r], width as nat)
                    } else {
                        blank_row(width as nat)
                    },
            ),
            dirty: Seq::new(height as nat, |r: int| true),
            ..self
        }
    }

    /// Every cell empty, every row dirty.
    pub open spec fn clear(self) -> GridView {
        GridView {
            cells: Seq::new(self.height as nat, |r: int| blank_row(self.width as nat)),
            dirty: Seq::new(self.height as nat, |r: int| true),
            ..self
        }
    }

    /// Every row dirty: the next flush displays the whole grid anew.
    pub open spec fn redraw(self) -> GridView {
        GridView { dirty: Seq::new(self.height as nat, |r: int| true), ..self }
    }

    /// Whether the runs, written into `row` from `col_start`, stay inside
    /// the grid.
    pub open spec fn line_fits(self, row: u64, col_start: u64, runs: Seq<LineCell>) -> bool {
        row < self.height && col_start + decode(runs).len() <= self.width
    }

    /// The decoded runs written over `row` from `col_start`; the row is
    /// dirty.
    pub open spec fn put_line(self, row: u64, col_start: u64, runs: Seq<LineCell>) -> GridView {
        GridView {
            cells: self.cells.update(
                row as int,
                overwrite(self.cells[row as int], col_start as int, decode(runs)),
            ),
            dirty: self.dirty.update(row as int, true),
            ..self
        }
    }

    /// Whether rows `top..bot` and columns `left..right` lie inside the grid.
    pub open spec fn region_ok(self, top: u64, bot: u64, left: u64, right: u64) -> bool {
        top <= bot <= self.height && left <= right <= self.width
    }

    /// The content of the region moved down by `rows` and right by `cols`
    /// (up and left where they are negative). Cells of the region that
    /// nothing moves into are empty; the rows of the region are dirty.
    pub open spec fn scroll(
        self,
        top: u64,
        bot: u64,
        left: u64,
        right: u64,
        rows: i64,
        cols: i64,
    ) -> GridView {
        GridView {
            cells: Seq::new(
                self.height as nat,
                |r: int|
                    Seq::new(
                        self.width as nat,
                        |c: int|
                            scrolled_cell(
                                self.cells,
                                r,
                                c,
                                top as int,
                                bot as int,
                                left as int,
                                right as int,
                                rows as int,
                                cols as int,
                            ),
                    ),
            ),
            dirty: Seq::new(self.height as nat, |r: int| self.dirty[r] || top <= r < bot),
            ..self
        }
    }

    pub open spec fn cursor_goto(self, row: u64, col: u64) -> GridView {
        GridView { cursor_row: row, cursor_col: col, ..self }
    }

    /// The cursor's row is dirty, so that the next flush displays it anew.
    pub open spec fn tick(self) -> GridView {
        if self.cursor_row < self.height {
            GridView { dirty: self.dirty.update(self.cursor_row as int, true), ..self }
        } else {
            self
        }
    }

    pub open spec fn set_active(self, active: bool) -> GridView {
        GridView { active, ..self }
    }

    pub open spec fn set_busy(self, busy: bool) -> GridView {
        GridView { busy, ..self }
    }

    pub open spec fn set_mode(self, mode: ModeInfo) -> GridView {
        GridView { mode: Some(mode), ..self }
    }

    /// Every dirty row displayed from the buffer under `hl`; no row is
    /// dirty. Clean rows stay as they were displayed.
    pub open spec fn flush(self, hl: HlDefsView) -> GridView {
        GridView {
            rendered: Seq::new(
                self.height as nat,
                |r: int|
                    if self.dirty[r] {
                        render_row(self.cells[r], hl)
                    } else {
                        self.rendered[r]
                    },
            ),
            dirty: Seq::new(self.height as nat, |r: int| false),
            ..self
        }
    }

    /// A new font and line spacing; every row is dirty.
    pub open spec fn update_cell_metrics(self, font: Font, line_space: i64) -> GridView {
        GridView { font, line_space, dirty: Seq::new(self.height as nat, |r: int| true), ..self }
    }

    pub open spec fn set_allocation(self, width: u32, height: u32) -> GridView {
        GridView { alloc_width: width, alloc_height: height, ..self }
    }

    /// The grid's size in cells and the extent of one cell.
    pub open spec fn metrics(self) -> GridMetrics {
        GridMetrics {
            rows: self.height,
            cols: self.width,
            cell_width: self.font.spec_cell_width(),
            cell_height: self.font.spec_cell_height(self.line_space),
        }
    }

    /// The columns and rows of whole cells that the grid's surface has room
    /// for.
    pub open spec fn calc_size(self) -> (u64, u64) {
        (
            (self.alloc_width as int / self.metrics().cell_width as int) as u64,
            (self.alloc_height as int / self.metrics().cell_height as int) as u64,
        )
    }

    /// Where the cell at (`row`, `col`) lies on the grid's surface.
    pub open spec fn rect_for_cell(self, row: u64, col: u64) -> Rect {
        Rect {
            x: clamp_px(col as int * self.metrics().cell_width as int) as i64,
            y: clamp_px(row as int * self.metrics().cell_height as int) as i64,
            width: self.metrics().cell_width as i64,
            height: self.metrics().cell_height as i64,
        }
    }
}

/// A change that is made to every grid at once.
#[derive(Debug, PartialEq, Eq)]
pub enum GridOp {
    Redraw,
    SetBusy(bool),
    SetMode(ModeInfo),
    Flush,
    SetMetrics(Font, i64),
}

impl GridView {
    /// The grid after the change `op`; `hl` is the highlight table at that
    /// moment.
    pub open spec fn apply(self, op: GridOp, hl: HlDefsView) -> GridView {
        match op {
            GridOp::Redraw => self.redraw(),
            GridOp::SetBusy(busy) => self.set_busy(busy),
            GridOp::SetMode(mode) => self.set_mode(mode),
            GridOp::Flush => self.flush(hl),
            GridOp::SetMetrics(font, line_space) => self.update_cell_metrics(font, line_space),
        }
    }
}

/// A line update that fits keeps the grid well formed.
pub proof fn lemma_put_line_wf(grid: GridView, row: u64, col_start: u64, runs: Seq<LineCell>)
    requires
        grid.wf(),
        grid.line_fits(row, col_start, runs),
    ensures
        grid.put_line(row, col_start, runs).wf(),
{
    let after = grid.put_line(row, col_start, runs);
    assert forall|r: int| 0 <= r < after.height implies (#[trigger] after.cells[r]).len()
        == after.width by {
        if r != row {
            assert(after.cells[r] == grid.cells[r]);
        }
    }
}

/// Decoding one run more appends that run's cells.
pub proof fn lemma_decode_step(runs: Seq<LineCell>, i: int)
    requires
        0 <= i < runs.len(),
    ensures
        decode(runs.take(i + 1)) == decode(runs.take(i)) + Seq::new(
            runs[i].repeat as nat,
            |k: int| runs[i].cell(),
        ),
{
    assert(runs.take(i + 1).drop_last() =~= runs.take(i));
    assert(runs.take(i + 1).last() == runs[i]);
}

/// A prefix of the runs decodes to no more cells than all of them.
pub proof fn lemma_decode_prefix_len(runs: Seq<LineCell>, i: int)
    requires
        0 <= i <= runs.len(),
    ensures
        decode(runs.take(i)).len() <= decode(runs).len(),
    decreases runs.len() - i,
{
    if i == runs.len() {
        assert(runs.take(i) =~= runs);
    } else {
        lemma_decode_step(runs, i);
        lemma_decode_prefix_len(runs, i + 1);
    }
}

/// A grid: its buffer, what is displayed of it, its cursor and the state
/// that the editor broadcasts to all grids.
#[derive(Debug)]
pub struct Grid {
    pub id: i64,
    pub width: u64,
    pub height: u64,
    pub rows: Vec<Vec<Cell>>,
    pub dirty: Vec<bool>,
    pub rendered: Vec<Vec<Rendered>>,
    pub cursor_row: u64,
    pub cursor_col: u64,
    pub active: bool,
    pub busy: bool,
    pub mode: Option<ModeInfo>,
    pub font: Font,
    pub line_space: i64,
    pub alloc_width: u32,
    pub alloc_height: u32,
}

impl View for Grid {
    type V = GridView;

    open spec fn view(&self) -> GridView {
        GridView {
            id: self.id,
            width: self.width,
            height: self.height,
            cells: rows_view(self.rows@),
            dirty: self.dirty@,
            rendered: rendered_view(self.rendered@),
            cursor_row: self.cursor_row,
            cursor_col: self.cursor_col,
            active: self.active,
            busy: self.busy,
            mode: self.mode,
            font: self.font,
            line_space: self.line_space,
            alloc_width: self.alloc_width,
            alloc_height: self.alloc_height,
        }
    }
}

/// A row of `width` empty cells.
fn make_blank_row(width: u64) -> (row: Vec<Cell>)
    ensures
        row_view(row@) == blank_row(width as nat),
{
    let mut row: Vec<Cell> = Vec::new();
    let mut c: u64 = 0;
    while c < width
        invariant
            c <= width,
            row@.len() == c,
            forall|i: int| 0 <= i < c ==> (#[trigger] row@[i])@ == CellView::blank(),
        decreases width - c,
    {
        row.push(Cell::blank());
        c += 1;
    }
    assert(row_view(row@) =~= blank_row(width as nat));
    row
}

/// A copy of `source`, cut or padded with empty cells to `width`.
fn make_fit_row(source: &Vec<Cell>, width: u64) -> (row: Vec<Cell>)
    ensures
        row_view(row@) == fit_row(row_view(source@), width as nat),
{
    let mut row: Vec<Cell> = Vec::new();
    let mut c: u64 = 0;
    while c < width
        invariant
            c <= width,
            row@.len() == c,
            forall|i: int|
                0 <= i < c ==> (#[trigger] row@[i])@ == fit_row(row_view(source@), width as nat)[i],
        decreases width - c,
    {
        if (c as u128) < (source.len() as u128) {
            row.push(source[c as usize].clone());
        } else {
            row.push(Cell::blank());
        }
        c += 1;
    }
    assert(row_view(row@) =~= fit_row(row_view(source@), width as nat));
    row
}

/// Writes the decoded runs over `row` from column `start`.
fn write_runs(row: &mut Vec<Cell>, start: u64, runs: &Vec<LineCell>)
    requires
        start + decode(runs@).len() <= old(row)@.len(),
    ensures
        row_view(final(row)@) == overwrite(row_view(old(row)@), start as int, decode(runs@)),
{
    let ghost before = row_view(row@);
    let mut col: u64 = start;
    let mut i: usize = 0;
    assert(runs@.take(0) =~= Seq::<LineCell>::empty());
    assert(row_view(row@) =~= overwrite(before, start as int, decode(runs@.take(0))));
    assert(before.len() == row.len());
    while i < runs.len()
        invariant
            i <= runs.len(),
            row@.len() == before.len(),
            before.len() <= usize::MAX,
            start + decode(runs@).len() <= before.len(),
            col == start + decode(runs@.take(i as int)).len(),
            row_view(row@) == overwrite(before, start as int, decode(runs@.take(i as int))),
        decreases runs.len() - i,
    {
        let run = &runs[i];
        let ghost done = decode(runs@.take(i as int));
        proof {
            lemma_decode_step(runs@, i as int);
            lemma_decode_prefix_len(runs@, i as int + 1);
        }
        let mut k: u64 = 0;
        assert(done + Seq::new(0nat, |j: int| run.cell()) =~= done);
        assert(col + run.repeat <= before.len());
        while k < run.repeat
            invariant
                k <= run.repeat,
                row@.len() == before.len(),
                before.len() <= usize::MAX,
                col + run.repeat <= before.len(),
                col == start + done.len(),
                row_view(row@) == overwrite(
                    before,
                    start as int,
                    done + Seq::new(k as nat, |j: int| run.cell()),
                ),
            decreases run.repeat - k,
        {
            let at: u64 = col + k;
            assert(at < row.len());
            let cell = Cell {
                text: run.text.clone(),
                hl_id: run.hl_id,
                double_width: run.double_width,
            };
            let ghost prior = row@;
            let ghost seg_old = done + Seq::new(k as nat, |j: int| run.cell());
            row[at as usize] = cell;
            k += 1;
            proof {
                let seg_new = done + Seq::new(k as nat, |j: int| run.cell());
                assert(row@ == prior.update(at as int, cell));
                assert(cell@ == run.cell());
                assert forall|c: int| 0 <= c < before.len() implies row_view(row@)[c] == overwrite(
                    before,
                    start as int,
                    seg_new,
                )[c] by {
                    if c == at {
                        assert(seg_new[c - start] == run.cell());
                    } else {
                        assert(row_view(prior)[c] == overwrite(before, start as int, seg_old)[c]);
                        if start <= c < at {
                            assert(seg_new[c - start] == seg_old[c - start]);
                        }
                    }
                }
                assert(row_view(row@) =~= overwrite(before, start as int, seg_new));
            }
        }
        col += run.repeat;
        i += 1;
    }
    assert(runs@.take(runs@.len() as int) =~= runs@);
}

/// The row `r` of `grid` after the region has moved.
fn make_scrolled_row(
    grid: &Grid,
    r: u64,
    top: u64,
    bot: u64,
    left: u64,
    right: u64,
    rows: i64,
    cols: i64,
) -> (row: Vec<Cell>)
    requires
        grid@.wf(),
        r < grid.height,
        grid@.region_ok(top, bot, left, right),
    ensures
        row_view(row@) == grid@.scroll(top, bot, left, right, rows, cols).cells[r as int],
{
    let ghost want = grid@.scroll(top, bot, left, right, rows, cols).cells[r as int];
    let in_rows = top <= r && r < bot;
    let sr: i128 = r as i128 - rows as i128;
    let from_inside = in_rows && top as i128 <= sr && sr < bot as i128;
    let mut row: Vec<Cell> = Vec::new();
    let mut c: u64 = 0;
    assert(grid@.cells.len() == grid.rows@.len());
    assert(r < grid.rows.len());
    assert(grid@.cells[r as int] == row_view(grid.rows@[r as int]@));
    while c < grid.width
        invariant
            c <= grid.width,
            grid@.wf(),
            r < grid.height,
            r < grid.rows.len(),
            grid@.cells.len() == grid.rows@.len(),
            grid@.region_ok(top, bot, left, right),
            in_rows == (top <= r && r < bot),
            sr == r - rows,
            from_inside == (in_rows && top <= sr && sr < bot),
            want == grid@.scroll(top, bot, left, right, rows, cols).cells[r as int],
            row@.len() == c,
            forall|i: int| 0 <= i < c ==> (#[trigger] row@[i])@ == want[i],
        decreases grid.width - c,
    {
        let sc: i128 = c as i128 - cols as i128;
        if in_rows && left <= c && c < right {
            if from_inside && left as i128 <= sc && sc < right as i128 {
                assert(sr < grid.rows.len());
                assert(grid@.cells[sr as int] == row_view(grid.rows@[sr as int]@));
                assert(sc < grid.rows@[sr as int]@.len());
                let src = &grid.rows[sr as usize];
                assert(sc < src.len());
                row.push(src[sc as usize].clone());
            } else {
                row.push(Cell::blank());
            }
        } else {
            assert(grid@.cells[r as int] == row_view(grid.rows@[r as int]@));
            let src = &grid.rows[r as usize];
            assert(c < src.len());
            row.push(src[c as usize].clone());
        }
        c += 1;
    }
    assert(row_view(row@) =~= want);
    row
}

/// The marks with those of rows `top..bot` set.
fn mark_range(marks: &Vec<bool>, top: u64, bot: u64) -> (out: Vec<bool>)
    ensures
        out@ == Seq::new(marks@.len(), |r: int| marks@[r] || top <= r < bot),
{
    let mut out: Vec<bool> = Vec::new();
    let mut r: usize = 0;
    while r < marks.len()
        invariant
            r <= marks.len(),
            out@.len() == r,
            forall|i: int| 0 <= i < r ==> out@[i] == (marks@[i] || top <= i < bot),
        decreases marks.len() - r,
    {
        let inside = (top as u128) <= (r as u128) && (r as u128) < (bot as u128);
        out.push(marks[r] || inside);
        r += 1;
    }
    assert(out@ =~= Seq::new(marks@.len(), |r: int| marks@[r] || top <= r < bot));
    out
}

/// The displayed form of `row` under `hl`.
fn make_rendered_row(row: &Vec<Cell>, hl: &HlDefs) -> (out: Vec<Rendered>)
    ensures
        rendered_row_view(out@) == render_row(row_view(row@), hl@),
{
    let mut out: Vec<Rendered> = Vec::new();
    let mut c: usize = 0;
    while c < row.len()
        invariant
            c <= row.len(),
            out@.len() == c,
            forall|i: int|
                0 <= i < c ==> (#[trigger] out@[i])@ == render_row(row_view(row@), hl@)[i],
        decreases row.len() - c,
    {
        let cell = &row[c];
        out.push(
            Rendered {
                text: cell.text.clone(),
                style: hl.resolve(cell.hl_id),
                double_width: cell.double_width,
            },
        );
        c += 1;
    }
    assert(rendered_row_view(out@) =~= render_row(row_view(row@), hl@));
    out
}

/// `height` dirty marks, all `mark`.
fn make_marks(height: u64, mark: bool) -> (marks: Vec<bool>)
    ensures
        marks@ == Seq::new(height as nat, |r: int| mark),
{
    let mut marks: Vec<bool> = Vec::new();
    let mut r: u64 = 0;
    while r < height
        invariant
            r <= height,
            marks@.len() == r,
            forall|i: int| 0 <= i < r ==> marks@[i] == mark,
        decreases height - r,
    {
        marks.push(mark);
        r += 1;
    }
    assert(marks@ =~= Seq::new(height as nat, |r: int| mark));
    marks
}

impl Grid {
    pub fn new(id: i64, font: Font, line_space: i64, width: u64, height: u64) -> (grid: Grid)
        ensures
            grid@ == GridView::new(id, font, line_space, width, height),
            grid@.wf(),
    {
        let mut rows: Vec<Vec<Cell>> = Vec::new();
        let mut r: u64 = 0;
        while r < height
            invariant
                r <= height,
                rows@.len() == r,
                forall|i: int| 0 <= i < r ==> row_view((#[trigger] rows@[i])@) == blank_row(width as nat),
            decreases height - r,
        {
            rows.push(make_blank_row(width));
            r += 1;
        }
        let grid = Grid {
            id,
            width,
            height,
            rows,
            dirty: make_marks(height, true),
            rendered: Vec::new(),
            cursor_row: 0,
            cursor_col: 0,
            active: false,
            busy: false,
            mode: None,
            font,
            line_space,
            alloc_width: 0,
            alloc_height: 0,
        };
        assert(grid@.cells =~= GridView::new(id, font, line_space, width, height).cells);
        assert(grid@.rendered =~= Seq::<Seq<RenderedView>>::empty());
        grid
    }

    /// Whether the buffer and the dirty marks have the grid's size and every
    /// clean row is displayed in full.
    pub fn is_well_formed(&self) -> (ok: bool)
        ensures
            ok == self@.wf(),
    {
        assert(self@.cells.len() == self.rows@.len());
        assert(self@.rendered.len() == self.rendered@.len());
        if self.rows.len() as u64 != self.height || self.dirty.len() as u64 != self.height {
            return false;
        }
        let mut r: usize = 0;
        while r < self.rows.len()
            invariant
                r <= self.rows.len(),
                self.rows.len() == self.height,
                self.dirty.len() == self.height,
                self@.rendered.len() == self.rendered@.len(),
                forall|i: int| 0 <= i < r ==> (#[trigger] self@.cells[i]).len() == self.width,
                forall|i: int|
                    0 <= i < r && !(#[trigger] self.dirty@[i]) ==> i < self.rendered@.len()
                        && self@.rendered[i].len() == self.width,
            decreases self.rows.len() - r,
        {
            assert(self@.cells[r as int].len() == self.rows@[r as int]@.len());
            if self.rows[r].len() as u64 != self.width {
                return false;
            }
            if !self.dirty[r] {
                if r >= self.rendered.len() {
                    return false;
                }
                assert(self@.rendered[r as int].len() == self.rendered@[r as int]@.len());
                if self.rendered[r].len() as u64 != self.width {
                    return false;
                }
            }
            r += 1;
        }
        true
    }

    /// Gives the grid a new size. Cells inside both the old and the new
    /// bounds keep their content; all others are empty.
    pub fn resize(&mut self, width: u64, height: u64)
        requires
            old(self)@.wf(),
        ensures
            final(self)@ == old(self)@.resize(width, height),
            final(self)@.wf(),
    {
        let mut rows: Vec<Vec<Cell>> = Vec::new();
        let mut r: u64 = 0;
        while r < height
            invariant
                r <= height,
                rows@.len() == r,
                *self == *old(self),
                self@.wf(),
                forall|i: int|
                    0 <= i < r ==> row_view((#[trigger] rows@[i])@) == self@.resize(
                        width,
                        height,
                    ).cells[i],
            decreases height - r,
        {
            assert(self@.cells.len() == self.rows@.len());
            if r < self.height {
                assert(r < self.rows.len());
                assert(self@.cells[r as int] == row_view(self.rows@[r as int]@));
                let row = make_fit_row(&self.rows[r as usize], width);
                assert(row_view(row@) == fit_row(self@.cells[r as int], width as nat));
                rows.push(row);
            } else {
                rows.push(make_blank_row(width));
            }
            assert(row_view(rows@[r as int]@) == self@.resize(width, height).cells[r as int]);
            r += 1;
        }
        assert(rows_view(rows@) =~= self@.resize(width, height).cells);
        self.rows = rows;
        self.dirty = make_marks(height, true);
        self.width = width;
        self.height = height;
    }

    /// Empties every cell.
    pub fn clear(&mut self)
        requires
            old(self)@.wf(),
        ensures
            final(self)@ == old(self)@.clear(),
            final(self)@.wf(),
    {
        let mut rows: Vec<Vec<Cell>> = Vec::new();
        let mut r: u64 = 0;
        while r < self.height
            invariant
                r <= self.height,
                rows@.len() == r,
                *self == *old(self),
                forall|i: int|
                    0 <= i < r ==> row_view((#[trigger] rows@[i])@) == blank_row(self.width as nat),
            decreases self.height - r,
        {
            rows.push(make_blank_row(self.width));
            r += 1;
        }
        assert(rows_view(rows@) =~= self@.clear().cells);
        self.rows = rows;
        self.dirty = make_marks(self.height, true);
    }

    /// Writes a line update into the buffer, or refuses one that leaves
    /// the grid.
    pub fn put_line(&mut self, line: GridLineSegment) -> (r: Result<(), ProtocolError>)
        requires
            old(self)@.wf(),
        ensures
            final(self)@.wf(),
            match r {
                Ok(()) => {
                    &&& old(self)@.line_fits(line.row, line.col_start, line.cells@)
                    &&& final(self)@ == old(self)@.put_line(line.row, line.col_start, line.cells@)
                },
                Err(e) => {
                    &&& !old(self)@.line_fits(line.row, line.col_start, line.cells@)
                    &&& e == (ProtocolError::LineOutOfBounds { grid: old(self).id, row: line.row })
                    &&& *final(self) == *old(self)
                },
            },
    {
        let refused = ProtocolError::LineOutOfBounds { grid: self.id, row: line.row };
        if line.row >= self.height || line.col_start > self.width {
            return Err(refused);
        }
        let avail: u64 = self.width - line.col_start;
        let mut total: u64 = 0;
        let mut i: usize = 0;
        assert(line.cells@.take(0) =~= Seq::<LineCell>::empty());
        while i < line.cells.len()
            invariant
                i <= line.cells.len(),
                *self == *old(self),
                self@.wf(),
                line.row < self.height,
                avail == self.width - line.col_start,
                refused == (ProtocolError::LineOutOfBounds { grid: self.id, row: line.row }),
                total == decode(line.cells@.take(i as int)).len(),
                total <= avail,
            decreases line.cells.len() - i,
        {
            let repeat = line.cells[i].repeat;
            proof {
                lemma_decode_step(line.cells@, i as int);
                lemma_decode_prefix_len(line.cells@, i as int + 1);
            }
            if repeat > avail - total {
                return Err(refused);
            }
            total += repeat;
            i += 1;
        }
        assert(line.cells@.take(line.cells@.len() as int) =~= line.cells@);
        assert(self@.cells.len() == self.rows@.len());
        assert(line.row < self.rows.len());
        assert(self@.cells[line.row as int] == row_view(self.rows@[line.row as int]@));
        assert(line.row < self.dirty.len());
        let r = line.row as usize;
        write_runs(&mut self.rows[r], line.col_start, &line.cells);
        self.dirty[r] = true;
        assert(self@.cells =~= old(self)@.put_line(line.row, line.col_start, line.cells@).cells);
        Ok(())
    }

    /// Moves the content of a region, or refuses a region that is not
    /// inside the grid.
    pub fn scroll(&mut self, top: u64, bot: u64, left: u64, right: u64, rows: i64, cols: i64) -> (r:
        Result<(), ProtocolError>)
        requires
            old(self)@.wf(),
        ensures
            final(self)@.wf(),
            match r {
                Ok(()) => {
                    &&& old(self)@.region_ok(top, bot, left, right)
                    &&& final(self)@ == old(self)@.scroll(top, bot, left, right, rows, cols)
                },
                Err(e) => {
                    &&& !old(self)@.region_ok(top, bot, left, right)
                    &&& e == (ProtocolError::ScrollRegionOutOfBounds { grid: old(self).id })
                    &&& *final(self) == *old(self)
                },
            },
    {
        if !(top <= bot && bot <= self.height && left <= right && right <= self.width) {
            return Err(ProtocolError::ScrollRegionOutOfBounds { grid: self.id });
        }
        let ghost want = self@.scroll(top, bot, left, right, rows, cols);
        let mut moved: Vec<Vec<Cell>> = Vec::new();
        let mut r: u64 = 0;
        while r < self.height
            invariant
                r <= self.height,
                *self == *old(self),
                self@.wf(),
                self@.region_ok(top, bot, left, right),
                want == self@.scroll(top, bot, left, right, rows, cols),
                moved@.len() == r,
                forall|i: int| 0 <= i < r ==> row_view((#[trigger] moved@[i])@) == want.cells[i],
            decreases self.height - r,
        {
            moved.push(make_scrolled_row(self, r, top, bot, left, right, rows, cols));
            r += 1;
        }
        assert(rows_view(moved@) =~= want.cells);
        let marks = mark_range(&self.dirty, top, bot);
        assert(marks@ =~= want.dirty);
        self.rows = moved;
        self.dirty = marks;
        Ok(())
    }

    pub fn cursor_goto(&mut self, row: u64, col: u64)
        ensures
            final(self)@ == old(self)@.cursor_goto(row, col),
            *final(self) == (Grid { cursor_row: row, cursor_col: col, ..*old(self) }),
    {
        self.cursor_row = row;
        self.cursor_col = col;
    }

    /// Marks the cursor's row, so that the next flush displays it anew.
    pub fn tick(&mut self)
        requires
            old(self)@.wf(),
        ensures
            final(self)@ == old(self)@.tick(),
            final(self)@.wf(),
    {
        if self.cursor_row < self.height {
            assert(self.cursor_row < self.dirty.len());
            let r = self.cursor_row as usize;
            self.dirty[r] = true;
        }
    }

    pub fn set_active(&mut self, active: bool)
        ensures
            final(self)@ == old(self)@.set_active(active),
            *final(self) == (Grid { active, ..*old(self) }),
    {
        self.active = active;
    }

    pub fn set_busy(&mut self, busy: bool)
        ensures
            final(self)@ == old(self)@.set_busy(busy),
            *final(self) == (Grid { busy, ..*old(self) }),
    {
        self.busy = busy;
    }

    pub fn set_mode(&mut self, mode: ModeInfo)
        ensures
            final(self)@ == old(self)@.set_mode(mode),
            *final(self) == (Grid { mode: Some(mode), ..*old(self) }),
    {
        self.mode = Some(mode);
    }

    /// Displays every dirty row from the buffer.
    pub fn flush(&mut self, hl: &HlDefs)
        requires
            old(self)@.wf(),
        ensures
            final(self)@ == old(self)@.flush(hl@),
            final(self)@.wf(),
    {
        let ghost want = self@.flush(hl@);
        let mut shown: Vec<Vec<Rendered>> = Vec::new();
        std::mem::swap(&mut shown, &mut self.rendered);
        let mut fresh: Vec<Vec<Rendered>> = Vec::new();
        assert(self@.cells.len() == self.rows@.len());
        assert(shown@ == old(self).rendered@);
        assert(old(self)@.rendered.len() == old(self).rendered@.len());
        let mut r: usize = 0;
        while r < self.rows.len()
            invariant
                r <= self.rows.len(),
                old(self)@.wf(),
                self.rows@.len() == self.height,
                self.dirty@.len() == self.height,
                self.height == old(self).height,
                self.rows == old(self).rows,
                self.dirty == old(self).dirty,
                shown@.len() == old(self).rendered@.len(),
                old(self)@.rendered.len() == old(self).rendered@.len(),
                old(self)@.cells.len() == self.height,
                want == old(self)@.flush(hl@),
                fresh@.len() == r,
                forall|i: int|
                    0 <= i < r ==> rendered_row_view((#[trigger] fresh@[i])@) == want.rendered[i],
                forall|i: int| r <= i < shown.len() ==> (#[trigger] shown@[i]) == old(self).rendered@[i],
            decreases self.rows.len() - r,
        {
            if self.dirty[r] {
                assert(old(self)@.cells[r as int] == row_view(self.rows@[r as int]@));
                fresh.push(make_rendered_row(&self.rows[r], hl));
            } else {
                assert(r < shown.len());
                assert(old(self)@.rendered[r as int] == rendered_row_view(shown@[r as int]@));
                let mut row: Vec<Rendered> = Vec::new();
                std::mem::swap(&mut row, &mut shown[r]);
                fresh.push(row);
            }
            r += 1;
        }
        assert(rendered_view(fresh@) =~= want.rendered);
        self.rendered = fresh;
        self.dirty = make_marks(self.height, false);
    }

    /// Adopts a font and a line spacing.
    pub fn update_cell_metrics(&mut self, font: Font, line_space: i64)
        requires
            old(self)@.wf(),
        ensures
            final(self)@ == old(self)@.update_cell_metrics(font, line_space),
            final(self)@.wf(),
    {
        self.font = font;
        self.line_space = line_space;
        self.dirty = make_marks(self.height, true);
    }

    /// Records the extent of the surface that the embedder gave the grid.
    pub fn set_allocation(&mut self, width: u32, height: u32)
        ensures
            final(self)@ == old(self)@.set_allocation(width, height),
            *final(self) == (Grid { alloc_width: width, alloc_height: height, ..*old(self) }),
    {
        self.alloc_width = width;
        self.alloc_height = height;
    }

    pub fn get_grid_metrics(&self) -> (metrics: GridMetrics)
        ensures
            metrics == self@.metrics(),
            metrics.cell_width >= 1,
            metrics.cell_height >= 1,
    {
        GridMetrics {
            rows: self.height,
            cols: self.width,
            cell_width: self.font.cell_width(),
            cell_height: self.font.cell_height(self.line_space),
        }
    }

    /// The columns and rows that the grid's surface has room for.
    pub fn calc_size(&self) -> (size: (u64, u64))
        ensures
            size == self@.calc_size(),
    {
        let metrics = self.get_grid_metrics();
        (
            (self.alloc_width / metrics.cell_width) as u64,
            (self.alloc_height / metrics.cell_height) as u64,
        )
    }

    /// Where a cell lies on the grid's surface.
    pub fn get_rect_for_cell(&self, row: u64, col: u64) -> (rect: Rect)
        ensures
            rect == self@.rect_for_cell(row, col),
    {
        let metrics = self.get_grid_metrics();
        Rect {
            x: to_px(scale(col as i128, metrics.cell_width)),
            y: to_px(scale(row as i128, metrics.cell_height)),
            width: metrics.cell_width as i64,
            height: metrics.cell_height as i64,
        }
    }

    /// Makes the change `op`.
    pub fn apply(&mut self, op: &GridOp, hl: &HlDefs)
        requires
            old(self)@.wf(),
        ensures
            final(self)@ == old(self)@.apply(*op, hl@),
            final(self)@.wf(),
    {
        match op {
            GridOp::Redraw => self.redraw(),
            GridOp::SetBusy(busy) => self.set_busy(*busy),
            GridOp::SetMode(mode) => self.set_mode(*mode),
            GridOp::Flush => self.flush(hl),
            GridOp::SetMetrics(font, line_space) => self.update_cell_metrics(
                font.clone(),
                *line_space,
            ),
        }
    }

    /// Marks the whole grid for display at the next flush.
    pub fn redraw(&mut self)
        requires
            old(self)@.wf(),
        ensures
            final(self)@ == old(self)@.redraw(),
            final(self)@.wf(),
    {
        self.dirty = make_marks(self.height, true);
    }
}

} // verus!
