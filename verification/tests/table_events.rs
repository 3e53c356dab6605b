use text_table::events::{Event, MouseButton, MouseEvent, MouseEventKind, Rect, Status};
use text_table::text_table::{TableRow, TextTable};
use tui::style::Style;

fn row(label: &str) -> TableRow {
    TableRow { cells: vec![label.to_owned(), "-".to_owned()], style: Style::default() }
}

fn rows(n: usize) -> Vec<TableRow> {
    (0..n).map(|i| row(&format!("row{i}"))).collect()
}

fn table(n: usize) -> TextTable<u32> {
    let mut t: TextTable<u32> = TextTable::new(vec!["name".to_owned(), "value".to_owned()]);
    t.set_data(rows(n));
    t
}

fn left_click(column: u16, row: u16) -> Event {
    Event::Mouse(MouseEvent { kind: MouseEventKind::Down(MouseButton::Left), row, column })
}

const BOUNDS: Rect = Rect { x: 0, y: 0, width: 40, height: 8 };

#[test]
fn click_resolves_relative_to_window_start() {
    // Height 8 leaves 6 content rows under header and gap (rows 0 and 1).
    // With 12 rows and the selection on row 7, the window starts at 2, so a
    // click on terminal row 3 lands one row into the window: absolute row 3.
    let mut t = table(12);
    let mut messages: Vec<u32> = Vec::new();
    t.on_event(
        BOUNDS,
        Event::Mouse(MouseEvent { kind: MouseEventKind::ScrollDown, row: 2, column: 1 }),
        &mut messages,
    );
    t.state.move_down(7);
    t.draw(BOUNDS);
    assert_eq!(t.state.start_offset, 2);

    let status = t.on_event(BOUNDS, left_click(5, 3), &mut messages);
    assert_eq!(status, Status::Captured);
    assert_eq!(t.state.selected_index, Some(3));
}

#[test]
fn click_on_header_of_sortable_table_is_captured() {
    let mut t = table(4).sortable(true);
    t.draw(BOUNDS);
    let mut messages: Vec<u32> = Vec::new();
    let status = t.on_event(BOUNDS, left_click(5, 0), &mut messages);
    assert_eq!(status, Status::Captured);
    assert_eq!(t.state.selected_index, None);
}

#[test]
fn click_on_header_of_plain_table_is_ignored() {
    let mut t = table(4);
    t.draw(BOUNDS);
    let mut messages: Vec<u32> = Vec::new();
    let status = t.on_event(BOUNDS, left_click(5, 0), &mut messages);
    assert_eq!(status, Status::Ignored);
}

#[test]
fn click_outside_bounds_is_ignored() {
    let mut t = table(4);
    t.draw(BOUNDS);
    let mut messages: Vec<u32> = Vec::new();
    let status = t.on_event(BOUNDS, left_click(41, 3), &mut messages);
    assert_eq!(status, Status::Ignored);
    assert_eq!(t.state.selected_index, None);
}

#[test]
fn click_past_last_row_is_ignored() {
    let mut t = table(2);
    t.draw(BOUNDS);
    let mut messages: Vec<u32> = Vec::new();
    let status = t.on_event(BOUNDS, left_click(5, 6), &mut messages);
    assert_eq!(status, Status::Ignored);
    assert_eq!(t.state.selected_index, None);
}

#[test]
fn keyboard_events_are_delegated_upward() {
    let mut t = table(4);
    let mut messages: Vec<u32> = Vec::new();
    assert_eq!(t.on_event(BOUNDS, Event::Keyboard, &mut messages), Status::Ignored);
}

#[test]
fn scroll_wheel_moves_selection_and_emits_message() {
    let mut t = table(4).on_select(Some(7u32));
    t.draw(BOUNDS);
    let mut messages: Vec<u32> = Vec::new();
    let wheel = Event::Mouse(MouseEvent { kind: MouseEventKind::ScrollDown, row: 3, column: 3 });
    assert_eq!(t.on_event(BOUNDS, wheel, &mut messages), Status::Captured);
    assert_eq!(t.state.selected_index, Some(0));
    assert_eq!(messages, vec![7]);
}

#[test]
fn click_on_selected_row_emits_click_message() {
    let mut t = table(4).on_select_click(Some(9u32));
    t.draw(BOUNDS);
    let mut messages: Vec<u32> = Vec::new();
    assert_eq!(t.on_event(BOUNDS, left_click(5, 2), &mut messages), Status::Captured);
    assert!(messages.is_empty());
    assert_eq!(t.on_event(BOUNDS, left_click(5, 2), &mut messages), Status::Ignored);
    assert_eq!(messages, vec![9]);
    assert_eq!(t.state.selected_index, Some(0));
}

#[test]
fn draw_returns_visible_slice_with_headers_and_widths() {
    let mut t = table(12);
    let drawn = t.draw(BOUNDS);
    assert_eq!(drawn.headers, vec!["name".to_owned(), "value".to_owned()]);
    assert_eq!(drawn.widths.iter().map(|w| *w as u32).sum::<u32>(), 40);
    assert_eq!(drawn.rows.len(), 6);
    assert_eq!(drawn.start_index, 0);
    assert_eq!(drawn.table_gap, 1);
    assert_eq!(drawn.rows[0].cells[0], "row0".to_owned());
    assert_eq!(drawn.rows[5].cells[0], "row5".to_owned());
}

#[test]
fn short_viewport_suppresses_the_gap() {
    let mut t = table(10);
    let drawn = t.draw(Rect { x: 0, y: 0, width: 20, height: 5 });
    assert_eq!(drawn.table_gap, 0);
    assert_eq!(drawn.rows.len(), 4);
}

#[test]
fn gap_can_be_switched_off() {
    let mut t = table(3).show_gap(false);
    let drawn = t.draw(BOUNDS);
    assert_eq!(drawn.table_gap, 0);
    assert_eq!(drawn.rows.len(), 3);
}

#[test]
fn empty_table_draws_header_only() {
    let mut t = table(0);
    let drawn = t.draw(BOUNDS);
    assert_eq!(drawn.rows.len(), 0);
    assert_eq!(drawn.headers.len(), 2);
    assert_eq!(drawn.selected_visual, None);
}

#[test]
fn selected_row_is_reported_relative_to_window() {
    let mut t = table(12);
    let mut messages: Vec<u32> = Vec::new();
    t.draw(BOUNDS);
    t.on_event(BOUNDS, left_click(5, 4), &mut messages);
    let drawn = t.draw(BOUNDS);
    assert_eq!(t.state.selected_index, Some(2));
    assert_eq!(drawn.selected_visual, Some(2));
    assert!(drawn.highlight_style.is_some());

    let mut plain = table(12).show_selected_entry(false);
    let drawn = plain.draw(BOUNDS);
    assert!(drawn.highlight_style.is_none());
}

#[test]
fn set_data_keeps_selection_until_it_shrinks_away() {
    let mut t = table(6);
    let mut messages: Vec<u32> = Vec::new();
    t.draw(BOUNDS);
    t.on_event(BOUNDS, left_click(5, 5), &mut messages);
    assert_eq!(t.state.selected_index, Some(3));
    t.set_data(rows(2));
    assert_eq!(t.state.selected_index, Some(1));
}
