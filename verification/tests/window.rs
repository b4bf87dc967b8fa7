use ui_state::geometry::{div_ceil, scale, to_i64, to_px, GridMetrics, Rect};
use ui_state::window::{
    fit_float, message_height, place_float, place_normal, shift_rect, Anchor, Window, WindowKind,
};

fn metrics(cols: u64, rows: u64, cell_width: u32, cell_height: u32) -> GridMetrics {
    GridMetrics { rows, cols, cell_width, cell_height }
}

#[test]
fn to_px_keeps_values_in_range() {
    assert_eq!(to_px(-1), 0);
    assert_eq!(to_px(0), 0);
    assert_eq!(to_px(17), 17);
    assert_eq!(to_px(i64::MAX as i128), i64::MAX);
    assert_eq!(to_px(i64::MAX as i128 + 1), i64::MAX);
    assert_eq!(to_px(i128::MIN), 0);
}

#[test]
fn to_i64_moves_to_the_nearer_end() {
    assert_eq!(to_i64(-5), -5);
    assert_eq!(to_i64(i64::MIN as i128 - 1), i64::MIN);
    assert_eq!(to_i64(i64::MAX as i128 + 1), i64::MAX);
}

#[test]
fn div_ceil_rounds_up() {
    assert_eq!(div_ceil(0, 7), 0);
    assert_eq!(div_ceil(1, 7), 1);
    assert_eq!(div_ceil(7, 7), 1);
    assert_eq!(div_ceil(8, 7), 2);
    assert_eq!(div_ceil(300, 20), 15);
    assert_eq!(div_ceil(i64::MAX, 1), i64::MAX);
    assert_eq!(div_ceil(i64::MAX, u32::MAX), 2147483649);
}

#[test]
fn scale_multiplies() {
    assert_eq!(scale(3, 8), 24);
    assert_eq!(scale(-3, 8), -24);
    assert_eq!(scale(u64::MAX as i128, u32::MAX), u64::MAX as i128 * u32::MAX as i128);
}

#[test]
fn grid_extent_is_cells_times_cell() {
    let m = metrics(80, 24, 8, 16);
    assert_eq!(m.width(), 640);
    assert_eq!(m.height(), 384);
}

#[test]
fn anchor_sides() {
    assert!(Anchor::NW.is_west() && Anchor::NW.is_north());
    assert!(!Anchor::NE.is_west() && Anchor::NE.is_north());
    assert!(Anchor::SW.is_west() && !Anchor::SW.is_north());
    assert!(!Anchor::SE.is_west() && !Anchor::SE.is_north());
}

#[test]
fn normal_window_is_placed_by_base_cells() {
    let rect = place_normal(metrics(80, 24, 8, 16), 2, 10, 40, 12);
    assert_eq!(rect, Rect { x: 80, y: 32, width: 320, height: 192 });
}

#[test]
fn float_at_north_west_starts_at_the_anchor_cell() {
    let rect = place_float(Anchor::NW, 100, 50, metrics(80, 24, 8, 16), 2, 3, metrics(20, 5, 8, 16));
    assert_eq!(rect, Rect { x: 124, y: 82, width: 160, height: 80 });
}

#[test]
fn float_at_south_east_ends_at_the_anchor_cell() {
    let rect = place_float(Anchor::SE, 100, 50, metrics(80, 24, 8, 16), 10, 30, metrics(20, 5, 8, 16));
    assert_eq!(rect, Rect { x: 180, y: 130, width: 160, height: 80 });
}

#[test]
fn float_at_north_east_and_south_west() {
    let anchor = metrics(80, 24, 8, 16);
    let grid = metrics(20, 5, 8, 16);
    let ne = place_float(Anchor::NE, 0, 0, anchor, 2, 30, grid);
    assert_eq!((ne.x, ne.y), (80, 32));
    let sw = place_float(Anchor::SW, 0, 0, anchor, 10, 3, grid);
    assert_eq!((sw.x, sw.y), (24, 80));
}

#[test]
fn float_at_south_east_of_the_origin_is_clamped_to_it() {
    let rect = place_float(Anchor::SE, 0, 0, metrics(80, 24, 8, 16), 0, 0, metrics(20, 5, 8, 16));
    assert_eq!(rect, Rect { x: 0, y: 0, width: 160, height: 80 });
}

#[test]
fn float_at_south_east_with_room_touches_the_offset_corner() {
    let grid = metrics(20, 5, 8, 16);
    let rect = place_float(Anchor::SE, 500, 400, metrics(80, 24, 8, 16), 0, 0, grid);
    assert_eq!((rect.x, rect.y), (340, 320));
    assert_eq!((rect.x + rect.width, rect.y + rect.height), (500, 400));
    let tight = place_float(Anchor::SE, 100, 400, metrics(80, 24, 8, 16), 0, 0, grid);
    assert_eq!((tight.x, tight.y), (0, 320));
}

#[test]
fn float_with_negative_anchor_cell_is_clamped() {
    let rect = place_float(Anchor::NW, 10, 10, metrics(80, 24, 8, 16), -5, -5, metrics(2, 2, 8, 16));
    assert_eq!((rect.x, rect.y), (0, 0));
}

#[test]
fn float_far_away_stays_in_range() {
    let rect = place_float(
        Anchor::NW,
        i64::MAX,
        i64::MAX,
        metrics(80, 24, u32::MAX, u32::MAX),
        i64::MAX,
        i64::MAX,
        metrics(u64::MAX, u64::MAX, u32::MAX, u32::MAX),
    );
    assert_eq!(rect, Rect { x: i64::MAX, y: i64::MAX, width: i64::MAX, height: i64::MAX });
    let before = place_float(
        Anchor::SE,
        i64::MAX,
        i64::MAX,
        metrics(80, 24, 1, 1),
        i64::MIN,
        i64::MIN,
        metrics(u64::MAX, u64::MAX, u32::MAX, u32::MAX),
    );
    assert_eq!((before.x, before.y), (0, 0));
}

#[test]
fn float_that_fits_asks_for_nothing() {
    let base = metrics(80, 24, 10, 20);
    assert_eq!(fit_float(metrics(40, 10, 10, 20), base, 400, 280), None);
    assert_eq!(fit_float(metrics(80, 24, 10, 20), base, 0, 0), None);
}

#[test]
fn float_past_both_edges_asks_for_what_fits() {
    let base = metrics(80, 24, 10, 20);
    assert_eq!(fit_float(metrics(40, 10, 10, 20), base, 500, 300), Some((30, 9)));
}

#[test]
fn float_past_one_edge_keeps_the_other_dimension() {
    let base = metrics(80, 24, 10, 20);
    assert_eq!(fit_float(metrics(40, 10, 10, 20), base, 500, 0), Some((30, 10)));
    assert_eq!(fit_float(metrics(40, 10, 10, 20), base, 0, 300), Some((40, 9)));
    assert_eq!(fit_float(metrics(40, 10, 10, 20), base, 401, 0), Some((39, 10)));
    assert_eq!(fit_float(metrics(40, 10, 10, 20), base, 0, 281), Some((40, 9)));
}

#[test]
fn float_taller_than_the_base_grid_gets_all_its_rows() {
    let base = metrics(80, 24, 10, 20);
    assert_eq!(fit_float(metrics(20, 30, 10, 20), base, 0, 0), Some((20, 24)));
    assert_eq!(fit_float(metrics(90, 24, 10, 20), base, 0, 0), Some((80, 24)));
    assert_eq!(fit_float(metrics(20, 30, 10, 20), base, 0, 20), Some((20, 23)));
    assert_eq!(fit_float(metrics(20, 30, 10, 20), base, 0, 1), Some((20, 23)));
}

#[test]
fn what_is_asked_for_fits_and_one_more_would_not() {
    let base = metrics(80, 24, 10, 20);
    for y in [0i64, 1, 19, 20, 21, 299, 300, 301, 459, 460, 461, 479, 480] {
        let (cols, rows) = fit_float(metrics(20, 30, 10, 20), base, 0, y).unwrap();
        assert_eq!(cols, 20);
        assert!(rows >= 0);
        assert!(y + rows * 20 <= 480, "{} rows from {}", rows, y);
        assert!(y + (rows + 1) * 20 > 480, "{} rows from {}", rows, y);
    }
}

#[test]
fn float_beyond_the_base_grid_gets_nothing() {
    let base = metrics(80, 24, 10, 20);
    assert_eq!(fit_float(metrics(1, 1, 10, 20), base, 800, 480), Some((0, 0)));
    assert_eq!(fit_float(metrics(1, 1, 10, 20), base, 900, 500), Some((0, 0)));
    assert_eq!(fit_float(metrics(1, 1, 10, 20), base, 900, 0), Some((0, 1)));
    assert_eq!(fit_float(metrics(1, 1, 10, 20), base, 0, i64::MAX), Some((1, 0)));
    assert_eq!(fit_float(metrics(0, 0, 10, 20), base, 800, 480), None);
}

#[test]
fn fit_keeps_huge_sizes_in_range() {
    let base = metrics(u64::MAX, u64::MAX, 1, 1);
    let grid = metrics(u64::MAX, u64::MAX, 1, 1);
    assert_eq!(fit_float(grid, base, 1, 0), Some((i64::MAX, i64::MAX)));
}

#[test]
fn message_window_covers_the_rows_below() {
    let base = metrics(80, 24, 8, 16);
    assert_eq!(message_height(base, 0), 384);
    assert_eq!(message_height(base, 20), 64);
    assert_eq!(message_height(base, 24), 0);
    assert_eq!(message_height(base, 30), 0);
}

#[test]
fn shift_rect_adds_the_window_corner() {
    let mut window = Window::new(3, 1000, WindowKind::Normal);
    window.place(WindowKind::Normal, Rect { x: 80, y: 32, width: 320, height: 192 });
    let moved = shift_rect(Rect { x: 16, y: 48, width: 8, height: 16 }, &window);
    assert_eq!(moved, Rect { x: 96, y: 80, width: 8, height: 16 });
    window.place(WindowKind::Normal, Rect { x: i64::MAX, y: 0, width: 0, height: 0 });
    assert_eq!(shift_rect(Rect { x: 16, y: 48, width: 8, height: 16 }, &window).x, i64::MAX);
}

#[test]
fn window_changes() {
    let mut window = Window::new(3, 1000, WindowKind::Floating);
    assert_eq!(
        window,
        Window {
            grid: 3,
            handle: 1000,
            kind: WindowKind::Floating,
            x: 0,
            y: 0,
            width: 0,
            height: 0,
            visible: false
        }
    );
    window.place(WindowKind::Normal, Rect { x: 1, y: 2, width: 3, height: 4 });
    assert_eq!(
        window,
        Window {
            grid: 3,
            handle: 1000,
            kind: WindowKind::Normal,
            x: 1,
            y: 2,
            width: 3,
            height: 4,
            visible: true
        }
    );
    window.conceal();
    assert!(!window.visible);
    assert_eq!((window.x, window.y), (1, 2));
    window.set_external(30, 40);
    assert_eq!(window.kind, WindowKind::External);
    assert_eq!((window.x, window.y, window.width, window.height), (1, 2, 30, 40));
    assert!(window.visible);
}
