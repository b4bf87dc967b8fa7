use ui_state::action::Action;
use ui_state::error::ProtocolError;
use ui_state::event::{GridResize, Notify, RedrawEvent};
use ui_state::font::Font;
use ui_state::grid::{GridLineSegment, LineCell};
use ui_state::group::{ungroup, RedrawGroup};
use ui_state::state::UIState;

fn font() -> Font {
    Font { name: String::from("Monospace"), size: 12, cell_width: 10, cell_height: 20 }
}

fn word(grid: i64, row: u64, text: &str) -> GridLineSegment {
    GridLineSegment {
        grid,
        row,
        col_start: 0,
        cells: text
            .chars()
            .map(|c| LineCell { text: c.to_string(), hl_id: 1, repeat: 1, double_width: false })
            .collect(),
    }
}

#[test]
fn ungroup_of_nothing_is_nothing() {
    assert_eq!(ungroup(vec![]), vec![]);
    assert_eq!(ungroup(vec![RedrawGroup::GridClear(vec![]), RedrawGroup::SetTitle(vec![])]), vec![]);
}

#[test]
fn ungroup_keeps_the_order_of_payloads_and_groups() {
    let groups = vec![
        RedrawGroup::GridResize(vec![
            GridResize { grid: 2, width: 3, height: 3 },
            GridResize { grid: 3, width: 4, height: 4 },
        ]),
        RedrawGroup::SetBusy(true),
        RedrawGroup::GridClear(vec![3, 2, 3]),
        RedrawGroup::GridLine(vec![word(2, 0, "ab"), word(2, 1, "cd")]),
        RedrawGroup::Flush,
        RedrawGroup::SetTitle(vec![String::from("one"), String::from("two")]),
        RedrawGroup::Unknown(String::from("x")),
    ];
    assert_eq!(
        ungroup(groups),
        vec![
            RedrawEvent::GridResize(GridResize { grid: 2, width: 3, height: 3 }),
            RedrawEvent::GridResize(GridResize { grid: 3, width: 4, height: 4 }),
            RedrawEvent::SetBusy(true),
            RedrawEvent::GridClear(3),
            RedrawEvent::GridClear(2),
            RedrawEvent::GridClear(3),
            RedrawEvent::GridLine(word(2, 0, "ab")),
            RedrawEvent::GridLine(word(2, 1, "cd")),
            RedrawEvent::Flush,
            RedrawEvent::SetTitle(String::from("one")),
            RedrawEvent::SetTitle(String::from("two")),
            RedrawEvent::Unknown(String::from("x")),
        ]
    );
}

#[test]
fn every_kind_of_group_becomes_its_kind_of_event() {
    let groups = vec![
        RedrawGroup::GridCursorGoto(vec![]),
        RedrawGroup::GridDestroy(vec![5]),
        RedrawGroup::PopupmenuHide,
        RedrawGroup::PopupmenuSelect(vec![1, 2]),
        RedrawGroup::CmdlineHide,
        RedrawGroup::CmdlineBlockHide,
        RedrawGroup::WildmenuHide,
        RedrawGroup::WildmenuSelect(vec![-1]),
        RedrawGroup::WindowHide(vec![7]),
        RedrawGroup::WindowClose(vec![7, 8]),
        RedrawGroup::Ignored(String::from("mouse_on")),
    ];
    assert_eq!(
        ungroup(groups),
        vec![
            RedrawEvent::GridDestroy(5),
            RedrawEvent::PopupmenuHide,
            RedrawEvent::PopupmenuSelect(1),
            RedrawEvent::PopupmenuSelect(2),
            RedrawEvent::CmdlineHide,
            RedrawEvent::CmdlineBlockHide,
            RedrawEvent::WildmenuHide,
            RedrawEvent::WildmenuSelect(-1),
            RedrawEvent::WindowHide(7),
            RedrawEvent::WindowClose(7),
            RedrawEvent::WindowClose(8),
            RedrawEvent::Ignored(String::from("mouse_on")),
        ]
    );
}

#[test]
fn grouped_notification_applies_payload_by_payload() {
    let mut state = UIState::new(font(), 0, 80, 24, false);
    let notify = Notify::redraw(vec![
        RedrawGroup::GridResize(vec![
            GridResize { grid: 2, width: 3, height: 3 },
            GridResize { grid: 2, width: 5, height: 2 },
            GridResize { grid: 3, width: 1, height: 1 },
        ]),
        RedrawGroup::GridLine(vec![word(2, 0, "ab"), word(2, 0, "c"), word(2, 1, "de")]),
        RedrawGroup::GridDestroy(vec![3, 3]),
        RedrawGroup::SetTitle(vec![String::from("late")]),
    ]);
    let outcome = state.handle_notify(notify);
    assert_eq!(outcome.actions, vec![Action::GridCreated(2), Action::GridCreated(3), Action::GridDestroyed(3)]);
    assert_eq!(outcome.error, Some(ProtocolError::UnknownGrid(3)));
    let grid = state.grids.get(&2).unwrap();
    assert_eq!((grid.width, grid.height), (5, 2));
    let row: String = grid.rows[0].iter().map(|c| c.text.as_str()).collect();
    assert_eq!(row, "cb   ");
    let row: String = grid.rows[1].iter().map(|c| c.text.as_str()).collect();
    assert_eq!(row, "de   ");
}
