use ui_state::color::{Color, Highlight, HlDefs};
use ui_state::error::ProtocolError;
use ui_state::font::Font;
use ui_state::geometry::Rect;
use ui_state::grid::{Cell, Grid, GridLineSegment, GridOp, LineCell};
use ui_state::mode::{CursorShape, ModeInfo};

fn font() -> Font {
    Font { name: String::from("Monospace"), size: 12, cell_width: 8, cell_height: 16 }
}

fn run(text: &str, hl_id: u64, repeat: u64) -> LineCell {
    LineCell { text: String::from(text), hl_id, repeat, double_width: false }
}

fn line(row: u64, col_start: u64, cells: Vec<LineCell>) -> GridLineSegment {
    GridLineSegment { grid: 7, row, col_start, cells }
}

fn word(row: u64, col_start: u64, text: &str, hl_id: u64) -> GridLineSegment {
    line(row, col_start, text.chars().map(|c| run(&c.to_string(), hl_id, 1)).collect())
}

fn text_of(grid: &Grid, row: usize) -> String {
    grid.rows[row].iter().map(|c| c.text.as_str()).collect()
}

fn hl_of(grid: &Grid, row: usize) -> Vec<u64> {
    grid.rows[row].iter().map(|c| c.hl_id).collect()
}

fn blank() -> Cell {
    Cell { text: String::from(" "), hl_id: 0, double_width: false }
}

#[test]
fn new_grid_is_blank_and_all_dirty() {
    let grid = Grid::new(7, font(), 2, 3, 2);
    assert_eq!(grid.id, 7);
    assert_eq!((grid.width, grid.height), (3, 2));
    assert_eq!(grid.rows, vec![vec![blank(), blank(), blank()], vec![blank(), blank(), blank()]]);
    assert_eq!(grid.dirty, vec![true, true]);
    assert!(grid.rendered.is_empty());
    assert_eq!((grid.cursor_row, grid.cursor_col), (0, 0));
    assert!(!grid.active);
    assert!(!grid.busy);
    assert_eq!(grid.mode, None);
    assert_eq!(grid.line_space, 2);
}

#[test]
fn new_grid_may_be_empty() {
    let grid = Grid::new(7, font(), 0, 0, 0);
    assert!(grid.rows.is_empty());
    assert!(grid.dirty.is_empty());
    let wide = Grid::new(7, font(), 0, 4, 0);
    assert!(wide.rows.is_empty());
    let tall = Grid::new(7, font(), 0, 0, 2);
    assert_eq!(tall.rows, vec![Vec::<Cell>::new(), Vec::<Cell>::new()]);
}

#[test]
fn put_line_decodes_runs_in_order() {
    let mut grid = Grid::new(7, font(), 0, 8, 2);
    let written = grid.put_line(line(1, 1, vec![run("a", 3, 2), run("b", 4, 3), run("c", 5, 1)]));
    assert_eq!(written, Ok(()));
    assert_eq!(text_of(&grid, 1), " aabbbc ");
    assert_eq!(hl_of(&grid, 1), vec![0, 3, 3, 4, 4, 4, 5, 0]);
    assert_eq!(text_of(&grid, 0), "        ");
}

#[test]
fn put_line_with_no_repeat_writes_nothing_for_that_run() {
    let mut grid = Grid::new(7, font(), 0, 4, 1);
    assert_eq!(grid.put_line(line(0, 1, vec![run("a", 1, 0), run("b", 2, 1)])), Ok(()));
    assert_eq!(text_of(&grid, 0), " b  ");
}

#[test]
fn put_line_marks_only_its_row_dirty() {
    let mut grid = Grid::new(7, font(), 0, 4, 3);
    grid.flush(&HlDefs::new());
    assert_eq!(grid.dirty, vec![false, false, false]);
    assert_eq!(grid.put_line(word(1, 0, "ab", 1)), Ok(()));
    assert_eq!(grid.dirty, vec![false, true, false]);
}

#[test]
fn put_line_keeps_double_width_and_long_text() {
    let mut grid = Grid::new(7, font(), 0, 3, 1);
    let cells = vec![
        LineCell { text: String::from("\u{6f22}"), hl_id: 1, repeat: 1, double_width: true },
        LineCell { text: String::new(), hl_id: 1, repeat: 1, double_width: false },
    ];
    assert_eq!(grid.put_line(line(0, 0, cells)), Ok(()));
    assert_eq!(grid.rows[0][0], Cell { text: String::from("\u{6f22}"), hl_id: 1, double_width: true });
    assert_eq!(grid.rows[0][1], Cell { text: String::new(), hl_id: 1, double_width: false });
    assert_eq!(grid.rows[0][2], blank());
}

#[test]
fn put_line_up_to_the_edge_fits() {
    let mut grid = Grid::new(7, font(), 0, 4, 1);
    assert_eq!(grid.put_line(line(0, 2, vec![run("x", 1, 2)])), Ok(()));
    assert_eq!(text_of(&grid, 0), "  xx");
    assert_eq!(grid.put_line(line(0, 4, vec![])), Ok(()));
    assert_eq!(text_of(&grid, 0), "  xx");
}

#[test]
fn put_line_past_the_edge_is_refused() {
    let mut grid = Grid::new(7, font(), 0, 4, 2);
    assert_eq!(grid.put_line(word(0, 0, "keep", 1)), Ok(()));
    let error = ProtocolError::LineOutOfBounds { grid: 7, row: 0 };
    assert_eq!(grid.put_line(line(0, 2, vec![run("x", 1, 3)])), Err(error));
    assert_eq!(grid.put_line(line(0, 5, vec![])), Err(error));
    assert_eq!(grid.put_line(line(0, 0, vec![run("x", 1, 2), run("y", 1, u64::MAX)])), Err(error));
    assert_eq!(text_of(&grid, 0), "keep");
}

#[test]
fn put_line_below_the_grid_is_refused() {
    let mut grid = Grid::new(7, font(), 0, 4, 2);
    assert_eq!(
        grid.put_line(word(2, 0, "a", 1)),
        Err(ProtocolError::LineOutOfBounds { grid: 7, row: 2 })
    );
    assert_eq!(text_of(&grid, 0), "    ");
    assert_eq!(text_of(&grid, 1), "    ");
}

#[test]
fn resize_keeps_overlap_and_blanks_the_rest() {
    let mut grid = Grid::new(7, font(), 0, 3, 2);
    assert_eq!(grid.put_line(word(0, 0, "abc", 1)), Ok(()));
    assert_eq!(grid.put_line(word(1, 0, "def", 2)), Ok(()));
    grid.resize(2, 3);
    assert_eq!((grid.width, grid.height), (2, 3));
    assert_eq!(text_of(&grid, 0), "ab");
    assert_eq!(text_of(&grid, 1), "de");
    assert_eq!(text_of(&grid, 2), "  ");
    assert_eq!(hl_of(&grid, 1), vec![2, 2]);
    assert_eq!(hl_of(&grid, 2), vec![0, 0]);
    assert_eq!(grid.dirty, vec![true, true, true]);
}

#[test]
fn resize_sequence_ends_at_the_last_size() {
    let mut grid = Grid::new(7, font(), 0, 3, 2);
    assert_eq!(grid.put_line(word(0, 0, "abc", 1)), Ok(()));
    assert_eq!(grid.put_line(word(1, 0, "def", 2)), Ok(()));
    grid.resize(5, 5);
    grid.resize(2, 1);
    grid.resize(4, 3);
    assert_eq!((grid.width, grid.height), (4, 3));
    assert_eq!(grid.rows.len(), 3);
    assert!(grid.rows.iter().all(|row| row.len() == 4));
    assert_eq!(text_of(&grid, 0), "ab  ");
    assert_eq!(text_of(&grid, 1), "    ");
    assert_eq!(text_of(&grid, 2), "    ");
    assert_eq!(hl_of(&grid, 0), vec![1, 1, 0, 0]);
}

#[test]
fn resize_to_nothing_and_back_loses_everything() {
    let mut grid = Grid::new(7, font(), 0, 2, 1);
    assert_eq!(grid.put_line(word(0, 0, "ab", 1)), Ok(()));
    grid.resize(0, 0);
    assert!(grid.rows.is_empty());
    grid.resize(2, 1);
    assert_eq!(text_of(&grid, 0), "  ");
}

#[test]
fn resize_keeps_cursor_and_flags() {
    let mut grid = Grid::new(7, font(), 0, 2, 1);
    grid.cursor_goto(9, 4);
    grid.set_active(true);
    grid.set_busy(true);
    grid.resize(3, 3);
    assert_eq!((grid.cursor_row, grid.cursor_col), (9, 4));
    assert!(grid.active);
    assert!(grid.busy);
    assert_eq!(grid.id, 7);
}

#[test]
fn clear_blanks_every_cell() {
    let mut grid = Grid::new(7, font(), 0, 3, 2);
    assert_eq!(grid.put_line(word(1, 0, "abc", 1)), Ok(()));
    grid.flush(&HlDefs::new());
    grid.clear();
    assert_eq!(grid.rows, vec![vec![blank(), blank(), blank()], vec![blank(), blank(), blank()]]);
    assert_eq!(grid.dirty, vec![true, true]);
}

#[test]
fn scroll_moves_content_down() {
    let mut grid = Grid::new(7, font(), 0, 5, 4);
    assert_eq!(grid.put_line(word(0, 0, "hello", 5)), Ok(()));
    assert_eq!(grid.put_line(word(1, 0, "world", 6)), Ok(()));
    assert_eq!(grid.scroll(0, 4, 0, 5, 1, 0), Ok(()));
    assert_eq!(text_of(&grid, 0), "     ");
    assert_eq!(hl_of(&grid, 0), vec![0, 0, 0, 0, 0]);
    assert_eq!(text_of(&grid, 1), "hello");
    assert_eq!(hl_of(&grid, 1), vec![5, 5, 5, 5, 5]);
    assert_eq!(text_of(&grid, 2), "world");
    assert_eq!(text_of(&grid, 3), "     ");
}

#[test]
fn scroll_moves_content_up() {
    let mut grid = Grid::new(7, font(), 0, 2, 3);
    assert_eq!(grid.put_line(word(0, 0, "aa", 1)), Ok(()));
    assert_eq!(grid.put_line(word(1, 0, "bb", 2)), Ok(()));
    assert_eq!(grid.put_line(word(2, 0, "cc", 3)), Ok(()));
    assert_eq!(grid.scroll(0, 3, 0, 2, -2, 0), Ok(()));
    assert_eq!(text_of(&grid, 0), "cc");
    assert_eq!(text_of(&grid, 1), "  ");
    assert_eq!(text_of(&grid, 2), "  ");
    assert_eq!(hl_of(&grid, 0), vec![3, 3]);
}

#[test]
fn scroll_moves_columns() {
    let mut grid = Grid::new(7, font(), 0, 5, 1);
    assert_eq!(grid.put_line(word(0, 0, "abcde", 1)), Ok(()));
    assert_eq!(grid.scroll(0, 1, 0, 5, 0, 2), Ok(()));
    assert_eq!(text_of(&grid, 0), "  abc");
    assert_eq!(grid.scroll(0, 1, 0, 5, 0, -1), Ok(()));
    assert_eq!(text_of(&grid, 0), " abc ");
}

#[test]
fn scroll_leaves_cells_outside_the_region() {
    let mut grid = Grid::new(7, font(), 0, 4, 4);
    assert_eq!(grid.put_line(word(0, 0, "abcd", 1)), Ok(()));
    assert_eq!(grid.put_line(word(1, 0, "efgh", 1)), Ok(()));
    assert_eq!(grid.put_line(word(2, 0, "ijkl", 1)), Ok(()));
    assert_eq!(grid.put_line(word(3, 0, "mnop", 1)), Ok(()));
    grid.flush(&HlDefs::new());
    assert_eq!(grid.scroll(1, 3, 1, 3, 1, 1), Ok(()));
    assert_eq!(text_of(&grid, 0), "abcd");
    assert_eq!(text_of(&grid, 1), "e  h");
    assert_eq!(text_of(&grid, 2), "i fl");
    assert_eq!(text_of(&grid, 3), "mnop");
    assert_eq!(grid.dirty, vec![false, true, true, false]);
}

#[test]
fn scroll_further_than_the_region_empties_it() {
    let mut grid = Grid::new(7, font(), 0, 2, 2);
    assert_eq!(grid.put_line(word(0, 0, "ab", 1)), Ok(()));
    assert_eq!(grid.put_line(word(1, 0, "cd", 1)), Ok(()));
    assert_eq!(grid.scroll(0, 2, 0, 2, i64::MAX, 0), Ok(()));
    assert_eq!(text_of(&grid, 0), "  ");
    assert_eq!(text_of(&grid, 1), "  ");
    assert_eq!(grid.put_line(word(0, 0, "ab", 1)), Ok(()));
    assert_eq!(grid.scroll(0, 2, 0, 2, 0, i64::MIN), Ok(()));
    assert_eq!(text_of(&grid, 0), "  ");
}

#[test]
fn scroll_there_and_back_blanks_what_left_the_region() {
    let mut grid = Grid::new(7, font(), 0, 3, 3);
    assert_eq!(grid.put_line(word(0, 0, "abc", 1)), Ok(()));
    assert_eq!(grid.put_line(word(1, 0, "def", 2)), Ok(()));
    assert_eq!(grid.put_line(word(2, 0, "ghi", 3)), Ok(()));
    assert_eq!(grid.scroll(0, 3, 0, 3, 1, -1), Ok(()));
    assert_eq!(text_of(&grid, 0), "   ");
    assert_eq!(text_of(&grid, 1), "bc ");
    assert_eq!(text_of(&grid, 2), "ef ");
    assert_eq!(grid.scroll(0, 3, 0, 3, -1, 1), Ok(()));
    assert_eq!(text_of(&grid, 0), " bc");
    assert_eq!(text_of(&grid, 1), " ef");
    assert_eq!(text_of(&grid, 2), "   ");
    assert_eq!(hl_of(&grid, 0), vec![0, 1, 1]);
    assert_eq!(hl_of(&grid, 1), vec![0, 2, 2]);
}

#[test]
fn scroll_of_an_empty_region_changes_nothing() {
    let mut grid = Grid::new(7, font(), 0, 2, 2);
    assert_eq!(grid.put_line(word(0, 0, "ab", 1)), Ok(()));
    grid.flush(&HlDefs::new());
    assert_eq!(grid.scroll(1, 1, 0, 2, 1, 0), Ok(()));
    assert_eq!(text_of(&grid, 0), "ab");
    assert_eq!(grid.dirty, vec![false, false]);
}

#[test]
fn scroll_outside_the_grid_is_refused() {
    let mut grid = Grid::new(7, font(), 0, 3, 2);
    assert_eq!(grid.put_line(word(0, 0, "abc", 1)), Ok(()));
    let error = ProtocolError::ScrollRegionOutOfBounds { grid: 7 };
    assert_eq!(grid.scroll(0, 3, 0, 3, 1, 0), Err(error));
    assert_eq!(grid.scroll(0, 2, 0, 4, 1, 0), Err(error));
    assert_eq!(grid.scroll(2, 1, 0, 3, 1, 0), Err(error));
    assert_eq!(grid.scroll(0, 2, 3, 2, 1, 0), Err(error));
    assert_eq!(text_of(&grid, 0), "abc");
}

#[test]
fn flush_displays_dirty_rows_with_resolved_colours() {
    let mut hl = HlDefs::new();
    let red = Color { r: 200, g: 0, b: 0 };
    let mut def = Highlight::new();
    def.foreground = Some(red);
    def.bold = true;
    hl.insert(5, def);
    let mut grid = Grid::new(7, font(), 0, 2, 2);
    assert_eq!(grid.put_line(word(0, 0, "hi", 5)), Ok(()));
    grid.flush(&hl);
    assert_eq!(grid.dirty, vec![false, false]);
    assert_eq!(grid.rendered[0].len(), 2);
    assert_eq!(grid.rendered[0][0].text, "h");
    assert_eq!(grid.rendered[0][1].text, "i");
    assert_eq!(grid.rendered[0][0].style.fg, red);
    assert_eq!(grid.rendered[0][0].style.bg, Color { r: 0, g: 0, b: 0 });
    assert!(grid.rendered[0][0].style.bold);
    assert_eq!(grid.rendered[1][0].text, " ");
    assert_eq!(grid.rendered[1][0].style.fg, Color { r: 255, g: 255, b: 255 });
}

#[test]
fn flush_leaves_clean_rows_as_displayed() {
    let mut hl = HlDefs::new();
    let mut grid = Grid::new(7, font(), 0, 2, 2);
    assert_eq!(grid.put_line(word(0, 0, "hi", 5)), Ok(()));
    grid.flush(&hl);
    let white = Color { r: 255, g: 255, b: 255 };
    let blue = Color { r: 0, g: 0, b: 255 };
    assert_eq!(grid.rendered[0][0].style.fg, white);
    let mut def = Highlight::new();
    def.foreground = Some(blue);
    hl.insert(5, def);
    grid.flush(&hl);
    assert_eq!(grid.rendered[0][0].style.fg, white);
    assert_eq!(grid.put_line(word(1, 0, "yo", 5)), Ok(()));
    grid.flush(&hl);
    assert_eq!(grid.rendered[0][0].style.fg, white);
    assert_eq!(grid.rendered[1][0].style.fg, blue);
    grid.redraw();
    assert_eq!(grid.dirty, vec![true, true]);
    grid.flush(&hl);
    assert_eq!(grid.rendered[0][0].style.fg, blue);
}

#[test]
fn events_do_not_touch_what_is_displayed() {
    let hl = HlDefs::new();
    let mut grid = Grid::new(7, font(), 0, 2, 1);
    assert_eq!(grid.put_line(word(0, 0, "ab", 1)), Ok(()));
    grid.flush(&hl);
    assert_eq!(grid.put_line(word(0, 0, "cd", 1)), Ok(()));
    assert_eq!(grid.scroll(0, 1, 0, 2, 0, 1), Ok(()));
    grid.clear();
    assert_eq!(grid.rendered[0][0].text, "a");
    assert_eq!(grid.rendered[0][1].text, "b");
    grid.flush(&hl);
    assert_eq!(grid.rendered[0][0].text, " ");
}

#[test]
fn tick_marks_the_cursor_row() {
    let mut grid = Grid::new(7, font(), 0, 2, 3);
    grid.flush(&HlDefs::new());
    grid.cursor_goto(1, 0);
    assert_eq!(grid.dirty, vec![false, false, false]);
    grid.tick();
    assert_eq!(grid.dirty, vec![false, true, false]);
    grid.flush(&HlDefs::new());
    grid.cursor_goto(3, 0);
    grid.tick();
    assert_eq!(grid.dirty, vec![false, false, false]);
}

#[test]
fn apply_makes_the_named_change() {
    let hl = HlDefs::new();
    let mode = ModeInfo { blink_on: 500, cursor_shape: CursorShape::Vertical, cell_percentage: 25 };
    let mut grid = Grid::new(7, font(), 0, 2, 1);
    grid.apply(&GridOp::SetBusy(true), &hl);
    assert!(grid.busy);
    grid.apply(&GridOp::SetMode(mode), &hl);
    assert_eq!(grid.mode, Some(mode));
    grid.apply(&GridOp::Flush, &hl);
    assert_eq!(grid.dirty, vec![false]);
    grid.apply(&GridOp::Redraw, &hl);
    assert_eq!(grid.dirty, vec![true]);
    grid.apply(&GridOp::Flush, &hl);
    let big = Font { name: String::from("Serif"), size: 20, cell_width: 12, cell_height: 24 };
    grid.apply(&GridOp::SetMetrics(big.clone(), 3), &hl);
    assert_eq!(grid.font, big);
    assert_eq!(grid.line_space, 3);
    assert_eq!(grid.dirty, vec![true]);
}

#[test]
fn metrics_add_line_space_to_the_height() {
    let grid = Grid::new(7, font(), 4, 80, 24);
    let metrics = grid.get_grid_metrics();
    assert_eq!((metrics.cols, metrics.rows), (80, 24));
    assert_eq!((metrics.cell_width, metrics.cell_height), (8, 20));
}

#[test]
fn metrics_never_fall_below_one_unit() {
    let thin = Font { name: String::new(), size: 0, cell_width: 0, cell_height: 3 };
    assert_eq!(thin.cell_width(), 1);
    assert_eq!(thin.cell_height(-3), 1);
    assert_eq!(thin.cell_height(-2), 1);
    assert_eq!(thin.cell_height(-1), 2);
    assert_eq!(thin.cell_height(i64::MIN), 1);
    assert_eq!(thin.cell_height(i64::MAX), u32::MAX);
    let tall = Font { name: String::new(), size: 0, cell_width: u32::MAX, cell_height: u32::MAX };
    assert_eq!(tall.cell_width(), u32::MAX);
    assert_eq!(tall.cell_height(0), u32::MAX);
    assert_eq!(tall.cell_height(1), u32::MAX);
    assert_eq!(tall.cell_height(-1), u32::MAX - 1);
}

#[test]
fn calc_size_counts_whole_cells() {
    let mut grid = Grid::new(7, font(), 0, 80, 24);
    assert_eq!(grid.calc_size(), (0, 0));
    grid.set_allocation(807, 600);
    assert_eq!(grid.calc_size(), (100, 37));
    grid.update_cell_metrics(font(), 4);
    assert_eq!(grid.calc_size(), (100, 30));
}

#[test]
fn rect_for_cell_scales_by_the_cell() {
    let grid = Grid::new(7, font(), 4, 80, 24);
    assert_eq!(grid.get_rect_for_cell(0, 0), Rect { x: 0, y: 0, width: 8, height: 20 });
    assert_eq!(grid.get_rect_for_cell(3, 5), Rect { x: 40, y: 60, width: 8, height: 20 });
    assert_eq!(
        grid.get_rect_for_cell(u64::MAX, u64::MAX),
        Rect { x: i64::MAX, y: i64::MAX, width: 8, height: 20 }
    );
}

#[test]
fn resize_leaves_the_display_until_the_flush() {
    let hl = HlDefs::new();
    let mut grid = Grid::new(7, font(), 0, 2, 2);
    assert_eq!(grid.put_line(word(0, 0, "ab", 1)), Ok(()));
    grid.flush(&hl);
    assert_eq!(grid.rendered.len(), 2);
    grid.resize(3, 1);
    assert_eq!(grid.rendered.len(), 2);
    assert_eq!(grid.rendered[0].len(), 2);
    assert_eq!(grid.rendered[0][1].text, "b");
    grid.flush(&hl);
    assert_eq!(grid.rendered.len(), 1);
    assert_eq!(grid.rendered[0].len(), 3);
    assert_eq!(grid.rendered[0][1].text, "b");
    assert_eq!(grid.rendered[0][2].text, " ");
    grid.resize(3, 4);
    grid.flush(&hl);
    assert_eq!(grid.rendered.len(), 4);
    assert!(grid.rendered.iter().all(|row| row.len() == 3));
}

#[test]
fn well_formed_grids_are_told_from_broken_ones() {
    let hl = HlDefs::new();
    let mut grid = Grid::new(7, font(), 0, 2, 2);
    assert!(grid.is_well_formed());
    grid.flush(&hl);
    assert!(grid.is_well_formed());
    grid.resize(3, 3);
    assert!(grid.is_well_formed());
    grid.flush(&hl);
    grid.rows[1].pop();
    assert!(!grid.is_well_formed());
    grid.rows[1].push(blank());
    assert!(grid.is_well_formed());
    grid.rendered[2].clear();
    assert!(!grid.is_well_formed());
    grid.dirty[2] = true;
    assert!(grid.is_well_formed());
    grid.dirty.pop();
    assert!(!grid.is_well_formed());
    grid.dirty.push(false);
    grid.rendered.pop();
    assert!(!grid.is_well_formed());
    grid.height = 2;
    assert!(!grid.is_well_formed());
}
