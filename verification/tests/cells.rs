use text_table::cpu_widget::{
    CanvasStyling, CpuDataType, CpuWidgetColumn, CpuWidgetData, CpuWidgetStyling,
    CpuWidgetTableData,
};
use tui::style::{Color, Style};

fn entry(core: usize, usage: u64) -> CpuWidgetTableData {
    CpuWidgetTableData::Entry { data_type: CpuDataType::Cpu(core), last_entry: usage }
}

#[test]
fn all_row_shows_label_only_in_cpu_column() {
    let all = CpuWidgetTableData::All;
    assert_eq!(all.to_cell(&CpuWidgetColumn::CPU, 8), Some("All".to_owned()));
    assert_eq!(all.to_cell(&CpuWidgetColumn::Use, 8), None);
}

#[test]
fn narrow_cpu_column_drops_the_prefix() {
    let row = entry(3, 50);
    assert_eq!(row.to_cell(&CpuWidgetColumn::CPU, 4), Some("3".to_owned()));
    assert_eq!(row.to_cell(&CpuWidgetColumn::CPU, 5), Some("CPU3".to_owned()));
}

#[test]
fn usage_renders_as_percent() {
    let row = entry(0, 37);
    assert_eq!(row.to_cell(&CpuWidgetColumn::Use, 3), Some("37%".to_owned()));
    let idle = entry(1, 0);
    assert_eq!(idle.to_cell(&CpuWidgetColumn::Use, 3), Some("0%".to_owned()));
    let busy = entry(2, 100);
    assert_eq!(busy.to_cell(&CpuWidgetColumn::Use, 3), Some("100%".to_owned()));
}

#[test]
fn zero_width_hides_entry_cells() {
    let row = entry(7, 12);
    assert_eq!(row.to_cell(&CpuWidgetColumn::CPU, 0), None);
    assert_eq!(row.to_cell(&CpuWidgetColumn::Use, 0), None);
}

#[test]
fn avg_row_is_labelled() {
    let row = CpuWidgetTableData::Entry { data_type: CpuDataType::Avg, last_entry: 42 };
    assert_eq!(row.to_cell(&CpuWidgetColumn::CPU, 8), Some("AVG".to_owned()));
    assert_eq!(row.to_cell(&CpuWidgetColumn::Use, 8), Some("42%".to_owned()));
}

#[test]
fn column_headers() {
    assert_eq!(CpuWidgetColumn::CPU.text(), "CPU".to_owned());
    assert_eq!(CpuWidgetColumn::Use.text(), "Use".to_owned());
}

#[test]
fn table_data_mirrors_widget_data() {
    assert_eq!(
        CpuWidgetTableData::from_cpu_widget_data(&CpuWidgetData::All),
        CpuWidgetTableData::All
    );
    let source = CpuWidgetData::Entry { data_type: CpuDataType::Cpu(2), last_entry: 61 };
    assert_eq!(CpuWidgetTableData::from_cpu_widget_data(&source), entry(2, 61));
}

#[test]
fn relative_column_widths() {
    assert_eq!(CpuWidgetTableData::column_widths(), vec![1, 3]);
}

fn palette() -> CanvasStyling {
    CanvasStyling {
        all_colour_style: Style::default().fg(Color::Red),
        avg_colour_style: Style::default().fg(Color::Yellow),
        cpu_colour_styles: vec![
            Style::default().fg(Color::Green),
            Style::default().fg(Color::Blue),
        ],
        table_header_style: Style::default(),
        text_style: Style::default(),
        selected_text_style: Style::default(),
    }
}

#[test]
fn row_styles_follow_the_palette() {
    let styling = CpuWidgetStyling::from_colours(&palette());
    assert_eq!(
        CpuWidgetTableData::All.style_row(&styling),
        Style::default().fg(Color::Red)
    );
    let avg = CpuWidgetTableData::Entry { data_type: CpuDataType::Avg, last_entry: 1 };
    assert_eq!(avg.style_row(&styling), Style::default().fg(Color::Yellow));
    assert_eq!(entry(0, 1).style_row(&styling), Style::default().fg(Color::Green));
    assert_eq!(entry(1, 1).style_row(&styling), Style::default().fg(Color::Blue));
    assert_eq!(entry(5, 1).style_row(&styling), Style::default().fg(Color::Blue));
}

#[test]
fn empty_palette_falls_back_to_default_style() {
    let mut colours = palette();
    colours.cpu_colour_styles = Vec::new();
    let styling = CpuWidgetStyling::from_colours(&colours);
    assert_eq!(styling.entries.len(), 1);
    assert_eq!(entry(9, 1).style_row(&styling), Style::default());
}

#[test]
fn wide_cpu_column_keeps_prefix_for_big_core_indices() {
    let row = entry(12, 1);
    assert_eq!(row.to_cell(&CpuWidgetColumn::CPU, 6), Some("CPU12".to_owned()));
    let row = entry(1024, 1);
    assert_eq!(row.to_cell(&CpuWidgetColumn::CPU, 9), Some("CPU1024".to_owned()));
}
