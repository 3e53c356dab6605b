use text_table::cpu_widget::{
    AppConfigFields, CanvasStyling, CpuDataType, CpuDefault, CpuWidgetData, CpuWidgetState,
    CpuWidgetTableData, SortOrder,
};
use text_table::events::{Event, MouseEvent, MouseEventKind, Rect, Status};
use text_table::temp_table::TempTable;
use text_table::text_table::TableRow;
use tui::style::Style;

fn config() -> AppConfigFields {
    AppConfigFields { table_gap: 1, show_table_scroll_position: false, show_average_cpu: true }
}

fn colours() -> CanvasStyling {
    CanvasStyling {
        all_colour_style: Style::default(),
        avg_colour_style: Style::default(),
        cpu_colour_styles: vec![Style::default()],
        table_header_style: Style::default(),
        text_style: Style::default(),
        selected_text_style: Style::default(),
    }
}

fn state(default_selection: CpuDefault) -> CpuWidgetState {
    CpuWidgetState::new(&config(), default_selection, 60_000, None, &colours())
}

fn entry(core: usize, usage: u64) -> CpuWidgetData {
    CpuWidgetData::Entry { data_type: CpuDataType::Cpu(core), last_entry: usage }
}

fn table_entry(core: usize, usage: u64) -> CpuWidgetTableData {
    CpuWidgetTableData::Entry { data_type: CpuDataType::Cpu(core), last_entry: usage }
}

#[test]
fn new_state_sorts_ascending_by_the_cpu_column() {
    let s = state(CpuDefault::All);
    assert_eq!(s.table.sort_index(), 0);
    assert_eq!(s.table.order(), SortOrder::Ascending);
    assert_eq!(s.table.columns.len(), 2);
    assert!(s.table.columns[0].default_descending);
    assert!(!s.table.columns[1].default_descending);
    assert_eq!(s.table.first_draw_index, 0);
    assert_eq!(s.current_display_time, 60_000);
    assert!(s.show_avg);
    assert!(!s.is_legend_hidden);
}

#[test]
fn average_default_selection_starts_on_the_second_row() {
    assert_eq!(state(CpuDefault::Average).table.first_draw_index, 1);

    let mut no_avg = config();
    no_avg.show_average_cpu = false;
    let s = CpuWidgetState::new(&no_avg, CpuDefault::Average, 1, None, &colours());
    assert_eq!(s.table.first_draw_index, 0);
}

#[test]
fn update_table_maps_and_sorts_by_active_column() {
    let mut s = state(CpuDefault::All);
    let data = vec![entry(2, 30), CpuWidgetData::All, entry(0, 10), entry(1, 50)];
    s.update_table(&data);
    assert_eq!(
        s.table.data,
        vec![
            table_entry(0, 10),
            table_entry(1, 50),
            table_entry(2, 30),
            CpuWidgetTableData::All,
        ]
    );
}

#[test]
fn update_table_is_stable_on_sorted_data() {
    let mut s = state(CpuDefault::All);
    let data = vec![entry(0, 10), entry(1, 50), CpuWidgetData::All];
    s.update_table(&data);
    let first = s.table.data.clone();
    s.update_table(&data);
    assert_eq!(s.table.data, first);
}

#[test]
fn temp_table_has_sensor_and_temp_columns() {
    let mut t: TempTable<u32> = TempTable::new();
    assert_eq!(t.inner.columns.len(), 2);
    assert_eq!(t.inner.columns[0].name, "Sensor".to_owned());
    assert_eq!(t.inner.columns[1].name, "Temp".to_owned());

    t.set_data(vec![TableRow {
        cells: vec!["cpu0".to_owned(), "47C".to_owned()],
        style: Style::default(),
    }]);
    let drawn = t.draw(Rect { x: 0, y: 0, width: 30, height: 10 });
    assert_eq!(drawn.headers, vec!["Sensor".to_owned(), "Temp".to_owned()]);
    assert_eq!(drawn.rows.len(), 1);
    assert_eq!(drawn.rows[0].cells, vec!["cpu0".to_owned(), "47C".to_owned()]);
}

#[test]
fn temp_table_responds_to_scroll_events() {
    let mut t: TempTable<u32> = TempTable::new();
    let rows: Vec<TableRow> = (0..3)
        .map(|i| TableRow {
            cells: vec![format!("sensor{i}"), "20C".to_owned()],
            style: Style::default(),
        })
        .collect();
    t.set_data(rows);
    let bounds = Rect { x: 0, y: 0, width: 30, height: 10 };
    t.draw(bounds);
    let mut messages: Vec<u32> = Vec::new();
    let wheel = Event::Mouse(MouseEvent { kind: MouseEventKind::ScrollDown, row: 4, column: 4 });
    assert_eq!(t.on_event(bounds, wheel, &mut messages), Status::Captured);
    assert_eq!(t.inner.state.selected_index, Some(0));
    assert!(messages.is_empty());
}
