use text_table::events::Rect;
use text_table::text_table::{compute_column_widths, TextColumn, TextColumnConstraint, TextTable};

fn fill_column(name: &str) -> TextColumn {
    TextColumn::new(name.to_owned())
}

fn column_with(name: &str, constraint: TextColumnConstraint) -> TextColumn {
    TextColumn { name: name.to_owned(), width_constraint: constraint }
}

fn sum(widths: &[u16]) -> u32 {
    widths.iter().map(|w| *w as u32).sum()
}

#[test]
fn ten_fill_columns_split_width_evenly() {
    let columns: Vec<TextColumn> = (0..10).map(|i| fill_column(&format!("c{i}"))).collect();
    let widths = compute_column_widths(&columns, 100);
    assert_eq!(widths, vec![10; 10]);
}

#[test]
fn whole_width_is_used_when_any_column_exists() {
    let columns = vec![
        column_with("name", TextColumnConstraint::MaxLength(3)),
        column_with("pct", TextColumnConstraint::Percentage(25)),
        fill_column("x"),
    ];
    let widths = compute_column_widths(&columns, 83);
    assert_eq!(widths.len(), 3);
    assert_eq!(sum(&widths), 83);
}

#[test]
fn widths_never_exceed_available_width() {
    let columns = vec![
        column_with("a", TextColumnConstraint::Length(50)),
        column_with("b", TextColumnConstraint::Length(50)),
    ];
    let widths = compute_column_widths(&columns, 60);
    assert_eq!(widths, vec![50, 10]);
    assert_eq!(sum(&widths), 60);
}

#[test]
fn no_columns_yield_no_widths() {
    let widths = compute_column_widths(&Vec::new(), 37);
    assert!(widths.is_empty());
}

#[test]
fn zero_width_yields_all_zero() {
    let columns = vec![fill_column("a"), fill_column("b")];
    let widths = compute_column_widths(&columns, 0);
    assert_eq!(widths, vec![0, 0]);
}

#[test]
fn remainder_goes_to_leftmost_columns() {
    // Three one-letter Fill columns want 2 cells each; of 11 cells, 5 are
    // left over: one each, and the first two columns get the odd ones.
    let columns = vec![fill_column("a"), fill_column("b"), fill_column("c")];
    let widths = compute_column_widths(&columns, 11);
    assert_eq!(widths, vec![4, 4, 3]);
}

#[test]
fn header_width_counts_grapheme_clusters_not_chars_or_bytes() {
    // "e" followed by a combining acute accent is one grapheme cluster but
    // two chars and three bytes, so the capped column wants 1 + 1 = 2 cells.
    let name = "e\u{301}";
    let columns = vec![
        column_with(name, TextColumnConstraint::MaxLength(10)),
        column_with("tail", TextColumnConstraint::Length(5)),
    ];
    let widths = compute_column_widths(&columns, 20);
    // First pass gives [2, 5]; the 13 leftover cells split 7 and 6.
    assert_eq!(widths, vec![9, 11]);
}

#[test]
fn update_column_widths_stores_allocation() {
    let mut table: TextTable<u32> =
        TextTable::new(vec!["a".to_owned(), "b".to_owned(), "c".to_owned(), "d".to_owned()]);
    table.update_column_widths(Rect { x: 0, y: 0, width: 40, height: 10 });
    assert_eq!(table.column_widths, vec![10, 10, 10, 10]);
}

#[test]
fn percentage_column_takes_share_of_whole_width() {
    let columns = vec![
        column_with("half", TextColumnConstraint::Percentage(50)),
        column_with("rest", TextColumnConstraint::Length(10)),
    ];
    let widths = compute_column_widths(&columns, 40);
    // First pass gives [20, 10]; the 10 leftover cells split 5 and 5.
    assert_eq!(widths, vec![25, 15]);
}

#[test]
fn max_percentage_caps_at_share_and_content() {
    let columns = vec![
        column_with("abcdefgh", TextColumnConstraint::MaxPercentage(10)),
        column_with("rest", TextColumnConstraint::Length(90)),
    ];
    // The first column wants 9 cells and its 10% cap allows 10, so it takes
    // 9; the single leftover cell then lands on it as the leftmost column.
    let widths = compute_column_widths(&columns, 100);
    assert_eq!(widths, vec![10, 90]);
}
