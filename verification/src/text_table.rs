//! A sortable, scrollable table for text data: columns with sizing
//! policies, the width-allocation pass that divides the terminal width
//! among them, and the table widget itself.

use crate::events::{Event, MouseButton, MouseEventKind, Rect, Status};
use crate::TABLE_GAP_HEIGHT_LIMIT;
use crate::scroll::ScrollState;
use crate::style::default_style;
use crate::text::{desired_width, spec_desired_width};
use tui::style::Style;
use vstd::arithmetic::div_mod::lemma_fundamental_div_mod;
use vstd::prelude::*;

verus! {

/// Sizing policy for one column, applied against the width still free
/// after the columns to its left took theirs.
#[derive(Clone, Copy, Debug, PartialEq, Eq, Structural)]
pub enum TextColumnConstraint {
    /// As wide as the header wants, if that much is free.
    Fill,
    /// Exactly this many cells, if that much is free.
    Length(u16),
    /// This share of the whole width, in percent.
    Percentage(u16),
    /// As wide as the header wants, capped at a fixed number of cells.
    MaxLength(u16),
    /// As wide as the header wants, capped at a share of the whole width.
    MaxPercentage(u16),
}

/// One column: its header text and its sizing policy.
pub struct TextColumn {
    pub name: String,
    pub width_constraint: TextColumnConstraint,
}

impl TextColumn {
    pub fn new(name: String) -> (r: TextColumn)
        ensures
            r.name@ == name@,
            r.width_constraint == TextColumnConstraint::Fill,
    {
        TextColumn { name, width_constraint: TextColumnConstraint::Fill }
    }
}

/// The width one column takes in the first pass: its policy applied to the
/// whole width and to the width still remaining.
pub open spec fn spec_policy_width(c: TextColumn, total: int, remaining: int) -> int {
    let desired = spec_desired_width(c.name@);
    match c.width_constraint {
        TextColumnConstraint::Fill => vstd::math::min(desired, remaining),
        TextColumnConstraint::Length(l) => vstd::math::min(l as int, remaining),
        TextColumnConstraint::Percentage(p) => vstd::math::min(total * p / 100, remaining),
        TextColumnConstraint::MaxLength(l) => vstd::math::min(
            vstd::math::min(l as int, desired),
            remaining,
        ),
        TextColumnConstraint::MaxPercentage(p) => vstd::math::min(
            vstd::math::min(desired, total * p / 100),
            remaining,
        ),
    }
}

/// The width still free before column `i` takes its share in the first pass.
pub open spec fn spec_remaining_before(cols: Seq<TextColumn>, total: int, i: int) -> int
    decreases i,
{
    if i <= 0 {
        total
    } else {
        let prev = spec_remaining_before(cols, total, i - 1);
        prev - spec_policy_width(cols[i - 1], total, prev)
    }
}

/// The width column `i` gets in the first pass.
pub open spec fn spec_pass_width(cols: Seq<TextColumn>, total: int, i: int) -> int {
    spec_policy_width(cols[i], total, spec_remaining_before(cols, total, i))
}

/// Sum of a sequence of widths.
pub open spec fn spec_width_sum(s: Seq<u16>) -> int
    decreases s.len(),
{
    if s.len() == 0 {
        0
    } else {
        spec_width_sum(s.drop_last()) + s.last()
    }
}

/// The widths after both passes: each column's first-pass width plus an even
/// share of the leftover, the first `leftover % count` columns one cell more.
pub open spec fn spec_allocated_widths(cols: Seq<TextColumn>, total: int) -> Seq<int> {
    let n = cols.len() as int;
    if n == 0 {
        Seq::empty()
    } else {
        let rem = spec_remaining_before(cols, total, n);
        let share = rem / n;
        let extra = rem % n;
        Seq::new(
            n as nat,
            |i: int| spec_pass_width(cols, total, i) + share + if i < extra {
                1int
            } else {
                0int
            },
        )
    }
}

proof fn lemma_width_sum_push(s: Seq<u16>, w: u16)
    ensures
        spec_width_sum(s.push(w)) == spec_width_sum(s) + w,
{
    assert(s.push(w).drop_last() =~= s);
}

proof fn lemma_width_sum_nonneg(s: Seq<u16>)
    ensures
        spec_width_sum(s) >= 0,
    decreases s.len(),
{
    if s.len() > 0 {
        lemma_width_sum_nonneg(s.drop_last());
    }
}

proof fn lemma_width_sum_element(s: Seq<u16>, j: int)
    requires
        0 <= j < s.len(),
    ensures
        s[j] <= spec_width_sum(s),
    decreases s.len(),
{
    lemma_width_sum_nonneg(s.drop_last());
    if j < s.len() - 1 {
        lemma_width_sum_element(s.drop_last(), j);
    }
}

proof fn lemma_width_sum_update(s: Seq<u16>, j: int, v: u16)
    requires
        0 <= j < s.len(),
    ensures
        spec_width_sum(s.update(j, v)) == spec_width_sum(s) - s[j] + v,
    decreases s.len(),
{
    let t = s.update(j, v);
    if j == s.len() - 1 {
        assert(t.drop_last() =~= s.drop_last());
    } else {
        assert(t.drop_last() =~= s.drop_last().update(j, v));
        lemma_width_sum_update(s.drop_last(), j, v);
    }
}

/// What the redistribution pass has added once the first `j` columns are
/// done: a share each, one more for those among the first `extra`.
pub open spec fn spec_added(j: int, share: int, extra: int) -> int
    decreases j,
{
    if j <= 0 {
        0
    } else {
        spec_added(j - 1, share, extra) + share + if j - 1 < extra {
            1int
        } else {
            0int
        }
    }
}

proof fn lemma_added_extra_clamp(j: int, share: int, e1: int, e2: int)
    requires
        j >= 0,
        j <= e1,
        j <= e2,
    ensures
        spec_added(j, share, e1) == spec_added(j, share, e2),
    decreases j,
{
    if j > 0 {
        lemma_added_extra_clamp(j - 1, share, e1, e2);
    }
}

proof fn lemma_added_total(j: int, share: int, extra: int)
    requires
        j >= 0,
        0 <= extra <= j,
    ensures
        spec_added(j, share, extra) == j * share + extra,
    decreases j,
{
    if j == 0 {
    } else {
        if extra <= j - 1 {
            lemma_added_total(j - 1, share, extra);
        } else {
            lemma_added_total(j - 1, share, j - 1);
            lemma_added_extra_clamp(j - 1, share, extra, j - 1);
            assert(spec_added(j, share, extra) == spec_added(j - 1, share, j - 1) + share + 1);
        }
        assert(j * share == (j - 1) * share + share) by (nonlinear_arith);
    }
}

/// Divide `total_width` across the columns. First pass, left to right: each
/// column takes what its policy grants out of the width still free. Second
/// pass: the leftover is split evenly, the first `leftover % count` columns
/// getting one extra cell. With at least one column the whole width is used;
/// with none, the result is empty.
pub fn compute_column_widths(columns: &Vec<TextColumn>, total_width: u16) -> (r: Vec<u16>)
    ensures
        r@.len() == columns@.len(),
        forall|i: int|
            0 <= i < r@.len() ==> r@[i] as int == spec_allocated_widths(
                columns@,
                total_width as int,
            )[i],
        spec_width_sum(r@) <= total_width,
        columns@.len() > 0 ==> spec_width_sum(r@) == total_width,
{
    let ghost total: int = total_width as int;
    let mut widths: Vec<u16> = Vec::new();
    let mut width_remaining: u16 = total_width;
    let mut idx: usize = 0;
    while idx < columns.len()
        invariant
            idx <= columns@.len(),
            widths@.len() == idx,
            width_remaining as int == spec_remaining_before(columns@, total, idx as int),
            width_remaining <= total_width,
            total == total_width as int,
            forall|j: int|
                0 <= j < idx ==> widths@[j] as int == spec_pass_width(columns@, total, j),
            spec_width_sum(widths@) == total - width_remaining,
        decreases columns@.len() - idx,
    {
        let column = &columns[idx];
        let w: u16 = match column.width_constraint {
            TextColumnConstraint::Fill => {
                let desired: u16 = desired_width(column.name.as_str());
                if desired < width_remaining {
                    desired
                } else {
                    width_remaining
                }
            },
            TextColumnConstraint::Length(length) => {
                if length < width_remaining {
                    length
                } else {
                    width_remaining
                }
            },
            TextColumnConstraint::Percentage(percentage) => {
                proof {
                    assert((total_width as int) * (percentage as int) < 0x100000000)
                        by (nonlinear_arith)
                        requires
                            total_width <= 65535,
                            percentage <= 65535,
                    ;
                }
                let length: u32 = total_width as u32 * percentage as u32 / 100;
                if length < width_remaining as u32 {
                    length as u16
                } else {
                    width_remaining
                }
            },
            TextColumnConstraint::MaxLength(length) => {
                let desired: u16 = desired_width(column.name.as_str());
                let capped: u16 = if length < desired {
                    length
                } else {
                    desired
                };
                if capped < width_remaining {
                    capped
                } else {
                    width_remaining
                }
            },
            TextColumnConstraint::MaxPercentage(percentage) => {
                proof {
                    assert((total_width as int) * (percentage as int) < 0x100000000)
                        by (nonlinear_arith)
                        requires
                            total_width <= 65535,
                            percentage <= 65535,
                    ;
                }
                let desired: u16 = desired_width(column.name.as_str());
                let length: u32 = total_width as u32 * percentage as u32 / 100;
                let capped: u32 = if (desired as u32) < length {
                    desired as u32
                } else {
                    length
                };
                if capped < width_remaining as u32 {
                    capped as u16
                } else {
                    width_remaining
                }
            },
        };
        proof {
            assert(w as int == spec_pass_width(columns@, total, idx as int));
            lemma_width_sum_push(widths@, w);
        }
        widths.push(w);
        width_remaining = width_remaining - w;
        idx = idx + 1;
    }
    let n: usize = widths.len();
    if n == 0 {
        return widths;
    }
    let ghost pass1: Seq<u16> = widths@;
    let ghost rem: int = width_remaining as int;
    let amount_per_slot: u16 = ((width_remaining as usize) / n) as u16;
    let extra_slots: usize = (width_remaining as usize) % n;
    proof {
        lemma_fundamental_div_mod(rem, n as int);
    }
    let mut j: usize = 0;
    while j < n
        invariant
            0 <= j <= n,
            n == widths@.len(),
            pass1.len() == n,
            rem == width_remaining as int,
            total == total_width as int,
            spec_width_sum(pass1) == total - rem,
            0 <= rem <= total,
            amount_per_slot as int == rem / (n as int),
            extra_slots as int == rem % (n as int),
            extra_slots < n,
            forall|k: int| j <= k < n ==> widths@[k] == pass1[k],
            forall|k: int|
                0 <= k < j ==> widths@[k] as int == pass1[k] + amount_per_slot + (if k
                    < extra_slots as int {
                    1int
                } else {
                    0int
                }),
            spec_width_sum(widths@) == spec_width_sum(pass1) + spec_added(
                j as int,
                amount_per_slot as int,
                extra_slots as int,
            ),
        decreases n - j,
    {
        proof {
            lemma_width_sum_element(pass1, j as int);
            lemma_width_sum_nonneg(pass1);
            lemma_fundamental_div_mod(rem, n as int);
            if (j as int) < extra_slots as int {
                assert(rem % (n as int) > 0);
                assert(rem == (n as int) * (rem / (n as int)) + rem % (n as int));
                assert((n as int) * (rem / (n as int)) >= rem / (n as int)) by (nonlinear_arith)
                    requires
                        n >= 1,
                        rem / (n as int) >= 0,
                ;
            } else {
                assert(rem == (n as int) * (rem / (n as int)) + rem % (n as int));
                assert((n as int) * (rem / (n as int)) >= rem / (n as int)) by (nonlinear_arith)
                    requires
                        n >= 1,
                        rem / (n as int) >= 0,
                ;
            }
            lemma_width_sum_update(
                widths@,
                j as int,
                (widths@[j as int] + amount_per_slot + (if (j as int) < extra_slots as int {
                    1u16
                } else {
                    0u16
                })) as u16,
            );
        }
        let base: u16 = widths[j];
        let add: u16 = if j < extra_slots {
            amount_per_slot + 1
        } else {
            amount_per_slot
        };
        widths.set(j, base + add);
        j = j + 1;
    }
    proof {
        lemma_added_total(n as int, amount_per_slot as int, extra_slots as int);
        assert(spec_width_sum(widths@) == total);
        assert forall|i: int| 0 <= i < n implies widths@[i] as int == spec_allocated_widths(
            columns@,
            total,
        )[i] by {
            assert(spec_allocated_widths(columns@, total)[i] == spec_pass_width(columns@, total, i)
                + rem / (n as int) + if i < rem % (n as int) {
                1int
            } else {
                0int
            });
        }
    }
    widths
}

/// Styles for ordinary text, the selected row, and the header row.
#[derive(Clone, Copy, Debug)]
pub struct StyleSheet {
    pub text: Style,
    pub selected_text: Style,
    pub table_header: Style,
}

impl StyleSheet {
    pub fn new(text: Style, selected_text: Style, table_header: Style) -> (r: StyleSheet)
        ensures
            r.text == text,
            r.selected_text == selected_text,
            r.table_header == table_header,
    {
        StyleSheet { text, selected_text, table_header }
    }

    /// Every style left at the terminal's defaults.
    pub fn plain() -> StyleSheet {
        StyleSheet {
            text: default_style(),
            selected_text: default_style(),
            table_header: default_style(),
        }
    }
}

/// One data row handed to the table: a cell text per column and the style
/// the row is painted with.
pub struct TableRow {
    pub cells: Vec<String>,
    pub style: Style,
}

impl TableRow {
    /// The row's cell texts as plain character sequences.
    pub open spec fn view_cells(self) -> Seq<Seq<char>> {
        self.cells@.map_values(|s: String| s@)
    }
}

fn clone_row(row: &TableRow) -> (r: TableRow)
    ensures
        r.view_cells() == row.view_cells(),
        r.style == row.style,
{
    let mut cells: Vec<String> = Vec::new();
    let mut i: usize = 0;
    while i < row.cells.len()
        invariant
            i <= row.cells@.len(),
            cells@.len() == i,
            forall|j: int| 0 <= j < i ==> cells@[j]@ == row.cells@[j]@,
        decreases row.cells@.len() - i,
    {
        cells.push(row.cells[i].clone());
        i = i + 1;
    }
    let r = TableRow { cells, style: row.style };
    proof {
        assert(r.view_cells() =~= row.view_cells());
    }
    r
}

/// A sortable, scrollable table for text data.
pub struct TextTable<Message> {
    pub state: ScrollState,
    pub column_widths: Vec<u16>,
    pub columns: Vec<TextColumn>,
    pub show_gap: bool,
    pub show_selected_entry: bool,
    pub data: Vec<TableRow>,
    pub style_sheet: StyleSheet,
    pub sortable: bool,
    pub table_gap: u16,
    pub on_select: Option<Message>,
    pub on_select_click: Option<Message>,
}

impl<Message> TextTable<Message> {
    /// Internal invariant: the scroll state is sound and counts exactly the
    /// rows the table holds.
    pub open spec fn wf(self) -> bool {
        &&& self.state.wf()
        &&& self.state.total_items == self.data@.len()
    }

    /// Everything but the selected row is the same in `a` and `b`.
    pub open spec fn same_but_selection(a: TextTable<Message>, b: TextTable<Message>) -> bool {
        b == (TextTable {
            state: ScrollState { selected_index: b.state.selected_index, ..a.state },
            ..a
        })
    }

    pub fn new(columns: Vec<String>) -> (r: TextTable<Message>)
        ensures
            r.wf(),
            r.columns@.len() == columns@.len(),
            forall|i: int|
                0 <= i < columns@.len() ==> r.columns@[i].name@ == columns@[i]@
                    && r.columns@[i].width_constraint == TextColumnConstraint::Fill,
            r.column_widths@.len() == columns@.len(),
            forall|i: int| 0 <= i < columns@.len() ==> r.column_widths@[i] == 0u16,
            r.show_gap == true,
            r.show_selected_entry == true,
            r.sortable == false,
            r.table_gap == 0,
            r.data@.len() == 0,
            r.on_select is None,
            r.on_select_click is None,
            r.state.start_offset == 0,
            r.state.selected_index is None,
            r.state.total_items == 0,
            r.state.num_displayed == 0,
    {
        let mut cols: Vec<TextColumn> = Vec::new();
        let mut widths: Vec<u16> = Vec::new();
        let mut i: usize = 0;
        while i < columns.len()
            invariant
                i <= columns@.len(),
                cols@.len() == i,
                widths@.len() == i,
                forall|j: int|
                    0 <= j < i ==> cols@[j].name@ == columns@[j]@ && cols@[j].width_constraint
                        == TextColumnConstraint::Fill,
                forall|j: int| 0 <= j < i ==> widths@[j] == 0u16,
            decreases columns@.len() - i,
        {
            cols.push(TextColumn::new(columns[i].clone()));
            widths.push(0);
            i = i + 1;
        }
        TextTable {
            state: ScrollState::new(),
            column_widths: widths,
            columns: cols,
            show_gap: true,
            show_selected_entry: true,
            data: Vec::new(),
            style_sheet: StyleSheet::plain(),
            sortable: false,
            table_gap: 0,
            on_select: None,
            on_select_click: None,
        }
    }

    /// Whether to try to show a gap between the table headers and data.
    /// If there is not enough room, the gap is hidden anyway.
    ///
    /// Defaults to `true`.
    pub fn show_gap(self, show_gap: bool) -> (r: TextTable<Message>)
        ensures
            r == (TextTable { show_gap, ..self }),
    {
        let mut this = self;
        this.show_gap = show_gap;
        this
    }

    /// Whether to highlight the selected entry.
    ///
    /// Defaults to `true`.
    pub fn show_selected_entry(self, show_selected_entry: bool) -> (r: TextTable<Message>)
        ensures
            r == (TextTable { show_selected_entry, ..self }),
    {
        let mut this = self;
        this.show_selected_entry = show_selected_entry;
        this
    }

    /// Whether the table should display as sortable.
    ///
    /// Defaults to `false`.
    pub fn sortable(self, sortable: bool) -> (r: TextTable<Message>)
        ensures
            r == (TextTable { sortable, ..self }),
    {
        let mut this = self;
        this.sortable = sortable;
        this
    }

    /// What message to send when a row is selected.
    ///
    /// Defaults to `None` (doing nothing).
    pub fn on_select(self, on_select: Option<Message>) -> (r: TextTable<Message>)
        ensures
            r == (TextTable { on_select, ..self }),
    {
        let mut this = self;
        this.on_select = on_select;
        this
    }

    /// What message to send if a selected row is clicked on.
    ///
    /// Defaults to `None` (doing nothing).
    pub fn on_select_click(self, on_select_click: Option<Message>) -> (r: TextTable<Message>)
        ensures
            r == (TextTable { on_select_click, ..self }),
    {
        let mut this = self;
        this.on_select_click = on_select_click;
        this
    }

    /// Replace the table's rows wholesale. The selection survives unless the
    /// new set is too small, in which case it clamps to the new last row
    /// (and clears when the table became empty). No re-sort happens here:
    /// the host sorts its rows before handing them over.
    pub fn set_data(&mut self, data: Vec<TableRow>)
        requires
            old(self).wf(),
        ensures
            final(self).wf(),
            final(self).data@ == data@,
            final(self).state.total_items == data@.len(),
            final(self).state.selected_index == (match old(self).state.selected_index {
                Some(i) => if data@.len() == 0 {
                    Option::<usize>::None
                } else if i < data@.len() {
                    Some(i)
                } else {
                    Some((data@.len() - 1) as usize)
                },
                None => Option::<usize>::None,
            }),
            final(self).columns == old(self).columns,
            final(self).column_widths == old(self).column_widths,
            final(self).show_gap == old(self).show_gap,
            final(self).show_selected_entry == old(self).show_selected_entry,
            final(self).sortable == old(self).sortable,
            final(self).table_gap == old(self).table_gap,
            final(self).style_sheet == old(self).style_sheet,
            final(self).on_select == old(self).on_select,
            final(self).on_select_click == old(self).on_select_click,
    {
        self.data = data;
        let n: usize = self.data.len();
        self.state.set_num_items(n);
    }

    /// Recompute the column widths for the given bounds, as
    /// `compute_column_widths` describes.
    pub fn update_column_widths(&mut self, bounds: Rect)
        ensures
            final(self).column_widths@.len() == old(self).columns@.len(),
            forall|i: int|
                0 <= i < final(self).column_widths@.len() ==> final(self).column_widths@[i] as int
                    == spec_allocated_widths(old(self).columns@, bounds.width as int)[i],
            spec_width_sum(final(self).column_widths@) <= bounds.width,
            old(self).columns@.len() > 0 ==> spec_width_sum(final(self).column_widths@)
                == bounds.width,
            *final(self) == (TextTable { column_widths: final(self).column_widths, ..*old(self) }),
    {
        self.column_widths = compute_column_widths(&self.columns, bounds.width);
    }

    /// What one event does to the table: the new selection, the answered
    /// status, and the message (if any) that is emitted. Header clicks on a
    /// sortable table are captured for the host to toggle the sort; clicks
    /// below the header and gap select the row under the cursor; the scroll
    /// wheel moves the selection one row. Everything else is ignored.
    pub open spec fn spec_on_event(self, bounds: Rect, event: Event) -> (
        Option<usize>,
        Status,
        Option<Message>,
    ) {
        let keep = (self.state.selected_index, Status::Ignored, Option::<Message>::None);
        match event {
            Event::Keyboard => keep,
            Event::Mouse(m) => {
                if !m.spec_intersects(bounds) {
                    keep
                } else {
                    match m.kind {
                        MouseEventKind::Down(MouseButton::Left) => {
                            let y = m.row - bounds.y;
                            if self.sortable && y == 0 {
                                (self.state.selected_index, Status::Captured, Option::None)
                            } else if y > self.table_gap {
                                let visual = y - self.table_gap - 1;
                                if visual >= self.state.num_displayed {
                                    keep
                                } else {
                                    let absolute = self.state.start_offset + visual;
                                    if self.state.selected_index == Some(absolute as usize) {
                                        (
                                            self.state.selected_index,
                                            Status::Ignored,
                                            self.on_select_click,
                                        )
                                    } else {
                                        (
                                            Some(absolute as usize),
                                            Status::Captured,
                                            self.on_select,
                                        )
                                    }
                                }
                            } else {
                                keep
                            }
                        },
                        MouseEventKind::Down(_) => keep,
                        MouseEventKind::ScrollDown => {
                            let newsel = self.state.spec_moved_down(1);
                            if newsel == self.state.selected_index {
                                keep
                            } else {
                                (newsel, Status::Captured, self.on_select)
                            }
                        },
                        MouseEventKind::ScrollUp => {
                            let newsel = self.state.spec_moved_up(1);
                            if newsel == self.state.selected_index {
                                keep
                            } else {
                                (newsel, Status::Captured, self.on_select)
                            }
                        },
                        MouseEventKind::Other => keep,
                    }
                }
            },
        }
    }
}

impl<Message: Copy> TextTable<Message> {
    /// Handle one input event, as `spec_on_event` lays out. Only the
    /// selection ever changes; a change answers `Captured` and a declined or
    /// no-op event answers `Ignored`. A selection change emits the
    /// configured `on_select` message, a click on the already selected row
    /// the configured `on_select_click` message.
    pub fn on_event(&mut self, bounds: Rect, event: Event, messages: &mut Vec<Message>) -> (r:
        Status)
        requires
            old(self).wf(),
        ensures
            final(self).wf(),
            Self::same_but_selection(*old(self), *final(self)),
            final(self).state.selected_index == old(self).spec_on_event(bounds, event).0,
            r == old(self).spec_on_event(bounds, event).1,
            final(messages)@ == (match old(self).spec_on_event(bounds, event).2 {
                Some(m) => old(messages)@.push(m),
                None => old(messages)@,
            }),
    {
        match event {
            Event::Keyboard => Status::Ignored,
            Event::Mouse(mouse_event) => {
                if mouse_event.does_mouse_intersect_bounds(bounds) {
                    match mouse_event.kind {
                        MouseEventKind::Down(MouseButton::Left) => {
                            let y: u16 = mouse_event.row - bounds.top();
                            if self.sortable && y == 0 {
                                Status::Captured
                            } else if y > self.table_gap {
                                let visual_index: usize = (y - self.table_gap - 1) as usize;
                                let was_visible: bool = visual_index < self.state.num_displayed;
                                let status: Status = self.state.set_visual_index(visual_index);
                                match status {
                                    Status::Captured => {
                                        if let Some(msg) = self.on_select {
                                            messages.push(msg);
                                        }
                                        Status::Captured
                                    },
                                    Status::Ignored => {
                                        if was_visible {
                                            if let Some(msg) = self.on_select_click {
                                                messages.push(msg);
                                            }
                                        }
                                        Status::Ignored
                                    },
                                }
                            } else {
                                Status::Ignored
                            }
                        },
                        MouseEventKind::ScrollDown => {
                            let status: Status = self.state.move_down(1);
                            if status == Status::Captured {
                                if let Some(msg) = self.on_select {
                                    messages.push(msg);
                                }
                            }
                            status
                        },
                        MouseEventKind::ScrollUp => {
                            let status: Status = self.state.move_up(1);
                            if status == Status::Captured {
                                if let Some(msg) = self.on_select {
                                    messages.push(msg);
                                }
                            }
                            status
                        },
                        _ => Status::Ignored,
                    }
                } else {
                    Status::Ignored
                }
            },
        }
    }
}

/// Whether a draw pass at this height shows the gap row between header and
/// data: only if it is wanted, and only if the viewport is tall enough that
/// the gap does not crowd the data out.
pub open spec fn spec_table_gap(show_gap: bool, n_rows: int, height: int) -> int {
    if !show_gap || (n_rows + 2 > height && height < TABLE_GAP_HEIGHT_LIMIT as int) {
        0
    } else {
        1
    }
}

/// How many rows of data fit under the header and gap.
pub open spec fn spec_content_height(height: int, gap: int) -> int {
    if height >= 1 + gap {
        height - 1 - gap
    } else {
        0
    }
}

/// Everything one frame needs: resolved widths, header texts, the visible
/// rows with their styles, and where the visible window and selection lie.
pub struct DrawnTable {
    pub widths: Vec<u16>,
    pub headers: Vec<String>,
    pub rows: Vec<TableRow>,
    pub start_index: usize,
    pub selected_visual: Option<usize>,
    pub table_gap: u16,
    pub header_style: Style,
    pub text_style: Style,
    pub highlight_style: Option<Style>,
}

impl<Message> TextTable<Message> {
    /// Produce one frame for the given bounds: pick the gap, allocate the
    /// column widths, settle the scroll window around the selection, and
    /// hand back the visible rows. Pure apart from the table's own state:
    /// the rows and columns are untouched.
    pub fn draw(&mut self, bounds: Rect) -> (r: DrawnTable)
        requires
            old(self).wf(),
        ensures
            final(self).wf(),
            *final(self) == (TextTable {
                state: final(self).state,
                column_widths: final(self).column_widths,
                table_gap: final(self).table_gap,
                ..*old(self)
            }),
            final(self).table_gap == spec_table_gap(
                old(self).show_gap,
                old(self).data@.len() as int,
                bounds.height as int,
            ),
            final(self).column_widths@.len() == old(self).columns@.len(),
            forall|i: int|
                0 <= i < final(self).column_widths@.len() ==> final(self).column_widths@[i] as int
                    == spec_allocated_widths(old(self).columns@, bounds.width as int)[i],
            old(self).columns@.len() > 0 ==> spec_width_sum(final(self).column_widths@)
                == bounds.width,
            final(self).state.selected_index == old(self).state.selected_index,
            final(self).state.total_items == old(self).state.total_items,
            final(self).state.start_offset == old(self).state.spec_new_start(
                spec_content_height(bounds.height as int, final(self).table_gap as int),
            ),
            final(self).state.num_displayed == vstd::math::min(
                final(self).state.total_items as int,
                final(self).state.start_offset + spec_content_height(
                    bounds.height as int,
                    final(self).table_gap as int,
                ),
            ) - final(self).state.start_offset,
            r.widths@ == final(self).column_widths@,
            r.headers@.len() == old(self).columns@.len(),
            forall|i: int|
                0 <= i < r.headers@.len() ==> r.headers@[i]@ == old(self).columns@[i].name@,
            r.start_index == final(self).state.start_offset,
            r.table_gap == final(self).table_gap,
            r.rows@.len() == final(self).state.num_displayed,
            forall|i: int|
                0 <= i < r.rows@.len() ==> r.rows@[i].view_cells() == old(self).data@[r.start_index
                    + i].view_cells() && r.rows@[i].style == old(self).data@[r.start_index
                    + i].style,
            r.selected_visual == (match final(self).state.selected_index {
                Some(s) => if r.start_index <= s < r.start_index + r.rows@.len() {
                    Some((s - r.start_index) as usize)
                } else {
                    Option::<usize>::None
                },
                None => Option::<usize>::None,
            }),
            r.header_style == old(self).style_sheet.table_header,
            r.text_style == old(self).style_sheet.text,
            r.highlight_style == (if old(self).show_selected_entry {
                Some(old(self).style_sheet.selected_text)
            } else {
                Option::<Style>::None
            }),
    {
        let table_gap: u16 = if !self.show_gap || (bounds.height < TABLE_GAP_HEIGHT_LIMIT && (
        bounds.height < 2 || self.data.len() > (bounds.height - 2) as usize)) {
            0
        } else {
            1
        };
        self.table_gap = table_gap;
        let table_extras: u16 = 1 + table_gap;
        let scrollable_height: u16 = if bounds.height >= table_extras {
            bounds.height - table_extras
        } else {
            0
        };
        self.update_column_widths(bounds);
        let start: usize = self.state.display_start_index(scrollable_height as usize);
        let visible: usize = self.state.num_displayed;
        let mut rows: Vec<TableRow> = Vec::new();
        let mut i: usize = 0;
        while i < visible
            invariant
                i <= visible,
                rows@.len() == i,
                self.wf(),
                start + visible <= self.data@.len(),
                forall|j: int|
                    0 <= j < i ==> rows@[j].view_cells() == self.data@[start + j].view_cells()
                        && rows@[j].style == self.data@[start + j].style,
            decreases visible - i,
        {
            rows.push(clone_row(&self.data[start + i]));
            i = i + 1;
        }
        let mut headers: Vec<String> = Vec::new();
        let mut k: usize = 0;
        while k < self.columns.len()
            invariant
                k <= self.columns@.len(),
                headers@.len() == k,
                forall|j: int| 0 <= j < k ==> headers@[j]@ == self.columns@[j].name@,
            decreases self.columns@.len() - k,
        {
            headers.push(self.columns[k].name.clone());
            k = k + 1;
        }
        let selected_visual: Option<usize> = match self.state.selected_index {
            Some(s) => {
                if s >= start && s - start < visible {
                    Some(s - start)
                } else {
                    None
                }
            },
            None => None,
        };
        let mut widths_out: Vec<u16> = Vec::new();
        let mut w: usize = 0;
        while w < self.column_widths.len()
            invariant
                w <= self.column_widths@.len(),
                widths_out@.len() == w,
                forall|j: int| 0 <= j < w ==> widths_out@[j] == self.column_widths@[j],
            decreases self.column_widths@.len() - w,
        {
            widths_out.push(self.column_widths[w]);
            w = w + 1;
        }
        proof {
            assert(widths_out@ =~= self.column_widths@);
        }
        DrawnTable {
            widths: widths_out,
            headers,
            rows,
            start_index: start,
            selected_visual,
            table_gap,
            header_style: self.style_sheet.table_header,
            text_style: self.style_sheet.text,
            highlight_style: if self.show_selected_entry {
                Some(self.style_sheet.selected_text)
            } else {
                None
            },
        }
    }
}

} // verus!
