//! The CPU table widget: per-core rows plus the synthetic "All" and "AVG"
//! aggregate rows, their cell text, their styling, and the per-column sort
//! that keeps the aggregate rows anchored to one end whatever the order.

use crate::style::default_style;
use crate::text::{dec_digits, u64_to_string};
use tui::style::Style;
use vstd::prelude::*;
use vstd::string::StringExecFns;

verus! {

/// Below this column width the "CPU" prefix is dropped and only the core
/// number is shown.
pub const CPU_TRUNCATE_BREAKPOINT: u16 = 5;

/// What a CPU row stands for: the average over all cores, or one core by
/// its index.
#[derive(Clone, Copy, Debug, PartialEq, Eq, Structural)]
pub enum CpuDataType {
    Avg,
    Cpu(usize),
}

/// One entry of the host's CPU data set. The usage is carried as a whole
/// percentage; measuring and rounding it is the host's business.
#[derive(Clone, Copy, Debug, PartialEq, Eq, Structural)]
pub enum CpuWidgetData {
    All,
    Entry { data_type: CpuDataType, last_entry: u64 },
}

/// One row of the CPU table, derived from `CpuWidgetData`.
#[derive(Clone, Copy, Debug, PartialEq, Eq, Structural)]
pub enum CpuWidgetTableData {
    All,
    Entry { data_type: CpuDataType, last_entry: u64 },
}

/// The columns of the CPU table.
#[derive(Clone, Copy, Debug, PartialEq, Eq, Structural)]
pub enum CpuWidgetColumn {
    CPU,
    Use,
}

impl CpuWidgetColumn {
    /// The column's header text.
    pub fn text(&self) -> (r: String)
        ensures
            *self == CpuWidgetColumn::CPU ==> r@ == "CPU"@,
            *self == CpuWidgetColumn::Use ==> r@ == "Use"@,
    {
        match self {
            CpuWidgetColumn::CPU => "CPU".to_owned(),
            CpuWidgetColumn::Use => "Use".to_owned(),
        }
    }
}

/// The table row that stands for one item of the host's data set.
pub open spec fn spec_from_cpu_widget_data(data: CpuWidgetData) -> CpuWidgetTableData {
    match data {
        CpuWidgetData::All => CpuWidgetTableData::All,
        CpuWidgetData::Entry { data_type, last_entry } => CpuWidgetTableData::Entry {
            data_type,
            last_entry,
        },
    }
}

impl CpuWidgetTableData {
    pub fn from_cpu_widget_data(data: &CpuWidgetData) -> (r: CpuWidgetTableData)
        ensures
            r == spec_from_cpu_widget_data(*data),
    {
        match data {
            CpuWidgetData::All => CpuWidgetTableData::All,
            CpuWidgetData::Entry { data_type, last_entry } => CpuWidgetTableData::Entry {
                data_type: *data_type,
                last_entry: *last_entry,
            },
        }
    }

    /// The text shown for this row in the given column at the given width.
    /// The "All" row shows its label only in the CPU column; entries hide
    /// everything at width zero, drop the "CPU" prefix in narrow columns,
    /// and render the usage as "<percent>%".
    pub open spec fn spec_to_cell(
        self,
        column: CpuWidgetColumn,
        calculated_width: int,
    ) -> Option<Seq<char>> {
        match self {
            CpuWidgetTableData::All => match column {
                CpuWidgetColumn::CPU => Some("All"@),
                CpuWidgetColumn::Use => None,
            },
            CpuWidgetTableData::Entry { data_type, last_entry } => {
                if calculated_width == 0 {
                    None
                } else {
                    match column {
                        CpuWidgetColumn::CPU => match data_type {
                            CpuDataType::Avg => Some("AVG"@),
                            CpuDataType::Cpu(index) => {
                                if calculated_width < CPU_TRUNCATE_BREAKPOINT as int {
                                    Some(dec_digits(index as int))
                                } else {
                                    Some("CPU"@ + dec_digits(index as int))
                                }
                            },
                        },
                        CpuWidgetColumn::Use => Some(dec_digits(last_entry as int) + "%"@),
                    }
                }
            },
        }
    }

    /// Render this row's cell for one column, as `spec_to_cell` lays out.
    pub fn to_cell(&self, column: &CpuWidgetColumn, calculated_width: u16) -> (r: Option<String>)
        ensures
            (match r {
                Some(s) => Some(s@),
                None => None,
            }) == self.spec_to_cell(*column, calculated_width as int),
    {
        match self {
            CpuWidgetTableData::All => match column {
                CpuWidgetColumn::CPU => Some("All".to_owned()),
                CpuWidgetColumn::Use => None,
            },
            CpuWidgetTableData::Entry { data_type, last_entry } => {
                if calculated_width == 0 {
                    None
                } else {
                    match column {
                        CpuWidgetColumn::CPU => match data_type {
                            CpuDataType::Avg => Some("AVG".to_owned()),
                            CpuDataType::Cpu(index) => {
                                let index_str: String = u64_to_string(*index as u64);
                                if calculated_width < CPU_TRUNCATE_BREAKPOINT {
                                    Some(index_str)
                                } else {
                                    Some("CPU".to_owned().concat(index_str.as_str()))
                                }
                            },
                        },
                        CpuWidgetColumn::Use => {
                            let percent: String = u64_to_string(*last_entry);
                            Some(percent.concat("%"))
                        },
                    }
                }
            },
        }
    }
}

/// The styles the CPU table paints its rows with: one for the "All" row,
/// one for the average row, and a repeating palette for the cores.
pub struct CpuWidgetStyling {
    pub all: Style,
    pub avg: Style,
    pub entries: Vec<Style>,
}

impl CpuWidgetStyling {
    /// The palette is never empty, so every core index finds a style.
    pub open spec fn wf(self) -> bool {
        self.entries@.len() > 0
    }

    /// Pick this widget's styles out of the host's palette; an empty core
    /// palette falls back to a single default style.
    pub fn from_colours(colours: &CanvasStyling) -> (r: CpuWidgetStyling)
        ensures
            r.wf(),
            r.all == colours.all_colour_style,
            r.avg == colours.avg_colour_style,
            colours.cpu_colour_styles@.len() > 0 ==> r.entries@ == colours.cpu_colour_styles@,
            colours.cpu_colour_styles@.len() == 0 ==> r.entries@.len() == 1,
    {
        let mut entries: Vec<Style> = Vec::new();
        if colours.cpu_colour_styles.len() == 0 {
            entries.push(default_style());
        } else {
            let mut i: usize = 0;
            while i < colours.cpu_colour_styles.len()
                invariant
                    i <= colours.cpu_colour_styles@.len(),
                    entries@.len() == i,
                    forall|j: int| 0 <= j < i ==> entries@[j] == colours.cpu_colour_styles@[j],
                decreases colours.cpu_colour_styles@.len() - i,
            {
                entries.push(colours.cpu_colour_styles[i]);
                i = i + 1;
            }
            proof {
                assert(entries@ =~= colours.cpu_colour_styles@);
            }
        }
        CpuWidgetStyling { all: colours.all_colour_style, avg: colours.avg_colour_style, entries }
    }
}

impl CpuWidgetTableData {
    /// The style this row is painted with: the "All" style, the average
    /// style, or the palette entry its core index lands on.
    pub fn style_row(&self, styling: &CpuWidgetStyling) -> (r: Style)
        requires
            styling.wf(),
        ensures
            *self == CpuWidgetTableData::All ==> r == styling.all,
            self matches CpuWidgetTableData::Entry { data_type: CpuDataType::Avg, .. } ==> r
                == styling.avg,
            self matches (CpuWidgetTableData::Entry {
                data_type: CpuDataType::Cpu(index),
                ..
            }) ==> r == styling.entries@[index as int % styling.entries@.len() as int],
    {
        match self {
            CpuWidgetTableData::All => styling.all,
            CpuWidgetTableData::Entry { data_type, last_entry: _ } => match data_type {
                CpuDataType::Avg => styling.avg,
                CpuDataType::Cpu(index) => styling.entries[*index % styling.entries.len()],
            },
        }
    }

    /// The relative widths the CPU table asks for: a narrow name column and
    /// a wider usage column.
    pub fn column_widths() -> (r: Vec<u16>)
        ensures
            r@ == seq![1u16, 3u16],
    {
        let mut widths: Vec<u16> = Vec::new();
        widths.push(1);
        widths.push(3);
        proof {
            assert(widths@ =~= seq![1u16, 3u16]);
        }
        widths
    }
}

/// How strongly a row is pinned: normal entries sort among themselves, the
/// average row stands above them, and the "All" row above everything. The
/// rank never takes part in order toggling, so aggregate rows keep their
/// anchored end under either order.
pub open spec fn spec_pin_rank(d: CpuWidgetTableData) -> int {
    match d {
        CpuWidgetTableData::All => 2,
        CpuWidgetTableData::Entry { data_type: CpuDataType::Avg, .. } => 1,
        CpuWidgetTableData::Entry { data_type: CpuDataType::Cpu(_), .. } => 0,
    }
}

/// The value a normal row is ordered by in the given column: its core index
/// in the CPU column, its usage in the Use column. Aggregate rows order by
/// their pin rank alone.
pub open spec fn spec_sort_key(d: CpuWidgetTableData, column: CpuWidgetColumn) -> int {
    match d {
        CpuWidgetTableData::All => 0,
        CpuWidgetTableData::Entry { data_type, last_entry } => match column {
            CpuWidgetColumn::CPU => match data_type {
                CpuDataType::Avg => 0,
                CpuDataType::Cpu(index) => index as int,
            },
            CpuWidgetColumn::Use => last_entry as int,
        },
    }
}

/// Whether `a` may stand above `b` in a table sorted by `column`: lower pin
/// rank first; among equally pinned aggregate rows any order; among normal
/// rows the column's key, ascending or descending. This relation is total
/// and transitive, so every row set has a sorted arrangement.
pub open spec fn spec_row_le(
    a: CpuWidgetTableData,
    b: CpuWidgetTableData,
    column: CpuWidgetColumn,
    descending: bool,
) -> bool {
    if spec_pin_rank(a) != spec_pin_rank(b) {
        spec_pin_rank(a) < spec_pin_rank(b)
    } else if spec_pin_rank(a) != 0 {
        true
    } else if descending {
        spec_sort_key(b, column) <= spec_sort_key(a, column)
    } else {
        spec_sort_key(a, column) <= spec_sort_key(b, column)
    }
}

/// Every pair of rows stands in order.
pub open spec fn spec_sorted_rows(
    s: Seq<CpuWidgetTableData>,
    column: CpuWidgetColumn,
    descending: bool,
) -> bool {
    forall|i: int, j: int|
        0 <= i < j < s.len() ==> spec_row_le(s[i], s[j], column, descending)
}

/// One of two rows always stands in order before the other.
pub proof fn lemma_row_le_total(
    a: CpuWidgetTableData,
    b: CpuWidgetTableData,
    column: CpuWidgetColumn,
    descending: bool,
)
    ensures
        spec_row_le(a, b, column, descending) || spec_row_le(b, a, column, descending),
{
}

/// The row order is transitive.
pub proof fn lemma_row_le_trans(
    a: CpuWidgetTableData,
    b: CpuWidgetTableData,
    c: CpuWidgetTableData,
    column: CpuWidgetColumn,
    descending: bool,
)
    requires
        spec_row_le(a, b, column, descending),
        spec_row_le(b, c, column, descending),
    ensures
        spec_row_le(a, c, column, descending),
{
}

fn pin_rank(d: CpuWidgetTableData) -> (r: u8)
    ensures
        r as int == spec_pin_rank(d),
{
    match d {
        CpuWidgetTableData::All => 2,
        CpuWidgetTableData::Entry { data_type: CpuDataType::Avg, .. } => 1,
        CpuWidgetTableData::Entry { data_type: CpuDataType::Cpu(_), .. } => 0,
    }
}

fn sort_key(d: CpuWidgetTableData, column: CpuWidgetColumn) -> (r: u64)
    ensures
        r as int == spec_sort_key(d, column),
{
    match d {
        CpuWidgetTableData::All => 0,
        CpuWidgetTableData::Entry { data_type, last_entry } => match column {
            CpuWidgetColumn::CPU => match data_type {
                CpuDataType::Avg => 0,
                CpuDataType::Cpu(index) => index as u64,
            },
            CpuWidgetColumn::Use => last_entry,
        },
    }
}

fn row_le(
    a: CpuWidgetTableData,
    b: CpuWidgetTableData,
    column: CpuWidgetColumn,
    descending: bool,
) -> (r: bool)
    ensures
        r == spec_row_le(a, b, column, descending),
{
    let ra: u8 = pin_rank(a);
    let rb: u8 = pin_rank(b);
    if ra != rb {
        ra < rb
    } else if ra != 0 {
        true
    } else {
        let ka: u64 = sort_key(a, column);
        let kb: u64 = sort_key(b, column);
        if descending {
            kb <= ka
        } else {
            ka <= kb
        }
    }
}

proof fn lemma_swap_preserves_multiset(s: Seq<CpuWidgetTableData>, x: int, y: int)
    requires
        0 <= x < y < s.len(),
    ensures
        s.update(x, s[y]).update(y, s[x]).to_multiset() == s.to_multiset(),
{
    broadcast use vstd::seq_lib::to_multiset_update;
    broadcast use vstd::seq_lib::group_to_multiset_ensures;
    broadcast use vstd::multiset::group_multiset_axioms;

    assert(s.contains(s[x]));
    assert(s.contains(s[y]));
    assert(s.to_multiset().count(s[x]) > 0);
    assert(s.to_multiset().count(s[y]) > 0);
    let s1 = s.update(x, s[y]);
    assert(s1[y] == s[y]);
    assert(s1.to_multiset() == s.to_multiset().insert(s[y]).remove(s[x]));
    assert(s1.update(y, s[x]).to_multiset() == s1.to_multiset().insert(s[x]).remove(s1[y]));
    assert(s.to_multiset().insert(s[y]).remove(s[x]).insert(s[x]).remove(s[y])
        =~= s.to_multiset());
}

impl CpuWidgetColumn {
    /// Sort the rows by this column in the given direction. The result is a
    /// rearrangement of the same rows, in order by `spec_row_le`; rows that
    /// already stand in order are left exactly as they are, so sorting twice
    /// changes nothing the second time.
    pub fn sort_data(&self, data: &mut Vec<CpuWidgetTableData>, descending: bool)
        ensures
            final(data)@.len() == old(data)@.len(),
            final(data)@.to_multiset() == old(data)@.to_multiset(),
            spec_sorted_rows(final(data)@, *self, descending),
            spec_sorted_rows(old(data)@, *self, descending) ==> final(data)@ == old(data)@,
    {
        let column: CpuWidgetColumn = *self;
        let ghost orig: Seq<CpuWidgetTableData> = data@;
        let n: usize = data.len();
        let mut i: usize = 1;
        while i < n
            invariant
                i >= 1,
                n <= 1 || i <= n,
                n == data@.len(),
                data@.len() == orig.len(),
                data@.to_multiset() == orig.to_multiset(),
                forall|k: int, l: int|
                    0 <= k < l < i && l < n ==> spec_row_le(data@[k], data@[l], column, descending),
                spec_sorted_rows(orig, column, descending) ==> data@ == orig,
                column == *self,
            decreases n - i,
        {
            let mut j: usize = i;
            while j > 0 && !row_le(data[j - 1], data[j], column, descending)
                invariant
                    0 <= j <= i < n,
                    n == data@.len(),
                    data@.len() == orig.len(),
                    data@.to_multiset() == orig.to_multiset(),
                    forall|k: int, l: int|
                        0 <= k < l <= i && l != j ==> spec_row_le(
                            data@[k],
                            data@[l],
                            column,
                            descending,
                        ),
                    forall|k: int|
                        j < k <= i ==> spec_row_le(data@[j as int], data@[k], column, descending),
                    spec_sorted_rows(orig, column, descending) ==> (data@ == orig && j == i),
                    column == *self,
                decreases j,
            {
                proof {
                    if spec_sorted_rows(orig, column, descending) {
                        assert(spec_row_le(orig[j - 1], orig[j as int], column, descending));
                    }
                }
                let a: CpuWidgetTableData = data[j - 1];
                let b: CpuWidgetTableData = data[j];
                proof {
                    lemma_row_le_total(a, b, column, descending);
                    lemma_swap_preserves_multiset(data@, j - 1, j as int);
                }
                data.set(j - 1, b);
                data.set(j, a);
                j = j - 1;
            }
            proof {
                assert forall|k: int, l: int|
                    0 <= k < l < i + 1 && l < n implies spec_row_le(
                    data@[k],
                    data@[l],
                    column,
                    descending,
                ) by {
                    if l == j {
                        if k < j - 1 {
                            assert(spec_row_le(data@[k], data@[j - 1], column, descending));
                            assert(spec_row_le(data@[j - 1], data@[j as int], column, descending));
                            lemma_row_le_trans(
                                data@[k],
                                data@[j - 1],
                                data@[j as int],
                                column,
                                descending,
                            );
                        }
                    }
                }
            }
            i = i + 1;
        }
    }
}

/// In a sorted table the aggregate rows hold the anchored end under either
/// order: going down the rows, the pin rank never drops, so no "All" or
/// "AVG" row stands above a normal row.
pub proof fn lemma_aggregate_rows_anchored(
    s: Seq<CpuWidgetTableData>,
    column: CpuWidgetColumn,
    descending: bool,
)
    requires
        spec_sorted_rows(s, column, descending),
    ensures
        forall|i: int, j: int|
            0 <= i < j < s.len() ==> spec_pin_rank(s[i]) <= spec_pin_rank(s[j]),
{
    assert forall|i: int, j: int|
        0 <= i < j < s.len() implies spec_pin_rank(s[i]) <= spec_pin_rank(s[j]) by {
        assert(spec_row_le(s[i], s[j], column, descending));
    }
}

/// Two arrangements of the same rows, both sorted, all rows normal with
/// pairwise distinct sort keys, are the same arrangement.
proof fn lemma_sorted_unique(
    a: Seq<CpuWidgetTableData>,
    b: Seq<CpuWidgetTableData>,
    column: CpuWidgetColumn,
    descending: bool,
)
    requires
        a.to_multiset() == b.to_multiset(),
        spec_sorted_rows(a, column, descending),
        spec_sorted_rows(b, column, descending),
        forall|i: int| 0 <= i < a.len() ==> spec_pin_rank(a[i]) == 0,
        forall|i: int, j: int|
            0 <= i < j < a.len() ==> spec_sort_key(a[i], column) != spec_sort_key(a[j], column),
    ensures
        a == b,
    decreases a.len(),
{
    broadcast use vstd::seq_lib::group_to_multiset_ensures;

    assert(a.len() == a.to_multiset().len());
    assert(b.len() == b.to_multiset().len());
    if a.len() == 0 {
        assert(a =~= b);
    } else {
        assert(a.contains(a[0]));
        assert(b.contains(b[0]));
        assert(a.to_multiset().count(a[0]) > 0);
        assert(b.to_multiset().count(b[0]) > 0);
        assert(b.contains(a[0]));
        assert(a.contains(b[0]));
        let k = choose|k: int| 0 <= k < b.len() && b[k] == a[0];
        let m = choose|m: int| 0 <= m < a.len() && a[m] == b[0];
        if m != 0 && k != 0 {
            assert(spec_row_le(b[0], b[k], column, descending));
            assert(spec_row_le(a[0], a[m], column, descending));
            assert(spec_pin_rank(a[0]) == 0);
            assert(spec_pin_rank(a[m]) == 0);
            assert(spec_sort_key(a[0], column) == spec_sort_key(a[m], column));
            assert(false);
        }
        assert(a[0] == b[0]);
        let a1 = a.drop_first();
        let b1 = b.drop_first();
        assert(a.remove(0) =~= a1);
        assert(b.remove(0) =~= b1);
        assert(a1.to_multiset() == a.to_multiset().remove(a[0]));
        assert(b1.to_multiset() == b.to_multiset().remove(b[0]));
        assert forall|i: int, j: int|
            0 <= i < j < a1.len() implies spec_row_le(a1[i], a1[j], column, descending) by {
            assert(spec_row_le(a[i + 1], a[j + 1], column, descending));
        }
        assert forall|i: int, j: int|
            0 <= i < j < b1.len() implies spec_row_le(b1[i], b1[j], column, descending) by {
            assert(spec_row_le(b[i + 1], b[j + 1], column, descending));
        }
        assert forall|i: int| 0 <= i < a1.len() implies spec_pin_rank(a1[i]) == 0 by {
            assert(spec_pin_rank(a[i + 1]) == 0);
        }
        assert forall|i: int, j: int|
            0 <= i < j < a1.len() implies spec_sort_key(a1[i], column) != spec_sort_key(
            a1[j],
            column,
        ) by {
            assert(spec_sort_key(a[i + 1], column) != spec_sort_key(a[j + 1], column));
        }
        lemma_sorted_unique(a1, b1, column, descending);
        assert forall|i: int| 0 <= i < a.len() implies a[i] == b[i] by {
            if i > 0 {
                assert(a1[i - 1] == b1[i - 1]);
            }
        }
        assert(a =~= b);
    }
}

/// Toggling the order on a table without aggregate rows exactly reverses
/// the rows: when every row of the original set is a normal entry and no
/// two rows share a sort key, the rows sorted descending are the rows
/// sorted ascending, reversed.
pub proof fn lemma_order_toggle_reverses(
    s: Seq<CpuWidgetTableData>,
    asc: Seq<CpuWidgetTableData>,
    desc: Seq<CpuWidgetTableData>,
    column: CpuWidgetColumn,
)
    requires
        forall|i: int| 0 <= i < s.len() ==> spec_pin_rank(s[i]) == 0,
        forall|i: int, j: int|
            0 <= i < j < s.len() ==> spec_sort_key(s[i], column) != spec_sort_key(s[j], column),
        asc.to_multiset() == s.to_multiset(),
        spec_sorted_rows(asc, column, false),
        desc.to_multiset() == s.to_multiset(),
        spec_sorted_rows(desc, column, true),
    ensures
        desc == asc.reverse(),
{
    broadcast use vstd::seq_lib::group_to_multiset_ensures;

    // Rows with pairwise distinct keys are pairwise distinct rows.
    assert forall|i: int, j: int|
        0 <= i < s.len() && 0 <= j < s.len() && i != j implies s[i] != s[j] by {
        if i < j {
            assert(spec_sort_key(s[i], column) != spec_sort_key(s[j], column));
        } else {
            assert(spec_sort_key(s[j], column) != spec_sort_key(s[i], column));
        }
    }
    assert(s.no_duplicates());
    s.lemma_multiset_has_no_duplicates();
    asc.lemma_multiset_has_no_duplicates_conv();

    // Every row of the sorted arrangement is a row of the original set.
    assert forall|i: int| 0 <= i < asc.len() implies s.contains(asc[i]) by {
        assert(asc.contains(asc[i]));
        assert(asc.to_multiset().count(asc[i]) > 0);
        assert(s.to_multiset().count(asc[i]) > 0);
    }
    assert forall|i: int| 0 <= i < asc.len() implies spec_pin_rank(asc[i]) == 0 by {
        assert(s.contains(asc[i]));
    }
    assert forall|i: int, j: int|
        0 <= i < j < asc.len() implies spec_sort_key(asc[i], column) != spec_sort_key(
        asc[j],
        column,
    ) by {
        assert(asc[i] != asc[j]);
        assert(s.contains(asc[i]));
        assert(s.contains(asc[j]));
        let mi = choose|m: int| 0 <= m < s.len() && s[m] == asc[i];
        let mj = choose|m: int| 0 <= m < s.len() && s[m] == asc[j];
        assert(mi != mj);
        if mi < mj {
            assert(spec_sort_key(s[mi], column) != spec_sort_key(s[mj], column));
        } else {
            assert(spec_sort_key(s[mj], column) != spec_sort_key(s[mi], column));
        }
    }

    // The ascending arrangement reversed is a descending arrangement of the
    // same rows, and descending arrangements of distinct-keyed normal rows
    // are unique.
    let r = asc.reverse();
    asc.lemma_reverse_to_multiset();
    let len = asc.len() as int;
    assert(r.len() == len);
    assert forall|i: int, j: int|
        0 <= i < j < r.len() implies spec_row_le(r[i], r[j], column, true) by {
        assert(r[i] == asc[len - 1 - i]);
        assert(r[j] == asc[len - 1 - j]);
        assert(spec_row_le(asc[len - 1 - j], asc[len - 1 - i], column, false));
        assert(spec_pin_rank(asc[len - 1 - i]) == 0);
        assert(spec_pin_rank(asc[len - 1 - j]) == 0);
    }
    assert forall|i: int| 0 <= i < r.len() implies spec_pin_rank(r[i]) == 0 by {
        assert(spec_pin_rank(asc[len - 1 - i]) == 0);
    }
    assert forall|i: int, j: int|
        0 <= i < j < r.len() implies spec_sort_key(r[i], column) != spec_sort_key(
        r[j],
        column,
    ) by {
        assert(r[i] == asc[len - 1 - i]);
        assert(r[j] == asc[len - 1 - j]);
        assert(spec_sort_key(asc[len - 1 - j], column) != spec_sort_key(
            asc[len - 1 - i],
            column,
        ));
    }
    lemma_sorted_unique(r, desc, column, true);
}

/// The host's colour palette, as far as this widget reads it.
pub struct CanvasStyling {
    pub all_colour_style: Style,
    pub avg_colour_style: Style,
    pub cpu_colour_styles: Vec<Style>,
    pub table_header_style: Style,
    pub text_style: Style,
    pub selected_text_style: Style,
}

/// A point in time the host captured; the widget only stores it for the
/// host's auto-hide handling and never reads it.
#[verifier::external_type_specification]
#[verifier::external_body]
pub struct ExInstant(std::time::Instant);

/// The slice of the host's configuration this widget reads.
pub struct AppConfigFields {
    pub table_gap: u16,
    pub show_table_scroll_position: bool,
    pub show_average_cpu: bool,
}

/// Which row the CPU widget selects when it is first drawn.
#[derive(Clone, Copy, Debug, PartialEq, Eq, Structural)]
pub enum CpuDefault {
    All,
    Average,
}

impl Default for CpuDefault {
    fn default() -> (r: CpuDefault)
        ensures
            r == CpuDefault::All,
    {
        CpuDefault::All
    }
}

/// The direction a column sorts in.
#[derive(Clone, Copy, Debug, PartialEq, Eq, Structural)]
pub enum SortOrder {
    Ascending,
    Descending,
}

impl Default for SortOrder {
    fn default() -> (r: SortOrder)
        ensures
            r == SortOrder::Ascending,
    {
        SortOrder::Ascending
    }
}

/// Presentation settings of a data table, fixed at construction.
pub struct DataTableProps {
    pub title: Option<String>,
    pub table_gap: u16,
    pub left_to_right: bool,
    pub is_basic: bool,
    pub show_table_scroll_position: bool,
    pub show_current_entry_when_unfocused: bool,
}

/// Presentation settings of a sortable data table: the inner table's
/// settings plus which column starts active and in which direction.
pub struct SortDataTableProps {
    pub inner: DataTableProps,
    pub sort_index: usize,
    pub order: SortOrder,
}

/// Styling of a data table as a whole.
pub struct DataTableStyling {
    pub header_style: Style,
    pub text_style: Style,
    pub highlighted_text_style: Style,
}

impl DataTableStyling {
    pub fn from_colours(colours: &CanvasStyling) -> (r: DataTableStyling)
        ensures
            r.header_style == colours.table_header_style,
            r.text_style == colours.text_style,
            r.highlighted_text_style == colours.selected_text_style,
    {
        DataTableStyling {
            header_style: colours.table_header_style,
            text_style: colours.text_style,
            highlighted_text_style: colours.selected_text_style,
        }
    }
}

/// One sortable column of the CPU table: the column itself, an optional cap
/// on its share of the width, and whether its first activation sorts
/// descending.
pub struct SortColumn {
    pub column: CpuWidgetColumn,
    pub max_percentage: Option<u16>,
    pub default_descending: bool,
}

impl SortColumn {
    /// A column that sizes itself to its content, optionally capped at a
    /// share of the table width.
    pub fn soft(column: CpuWidgetColumn, max_percentage: Option<u16>) -> (r: SortColumn)
        ensures
            r.column == column,
            r.max_percentage == max_percentage,
            r.default_descending == false,
    {
        SortColumn { column, max_percentage, default_descending: false }
    }

    /// Sort this column descending when it first becomes the active column.
    pub fn default_descending(self) -> (r: SortColumn)
        ensures
            r == (SortColumn { default_descending: true, ..self }),
    {
        let mut this = self;
        this.default_descending = true;
        this
    }

    /// Sort rows by this column in the given direction, as
    /// `CpuWidgetColumn::sort_data` lays out.
    pub fn sort_by(&self, data: &mut Vec<CpuWidgetTableData>, order: SortOrder)
        ensures
            final(data)@.len() == old(data)@.len(),
            final(data)@.to_multiset() == old(data)@.to_multiset(),
            spec_sorted_rows(final(data)@, self.column, order == SortOrder::Descending),
            spec_sorted_rows(old(data)@, self.column, order == SortOrder::Descending)
                ==> final(data)@ == old(data)@,
    {
        let descending: bool = order == SortOrder::Descending;
        self.column.sort_data(data, descending);
    }
}

/// The CPU table with its sort state: the columns, which one is active and
/// in which direction, the current rows, and presentation settings.
pub struct SortDataTable {
    pub columns: Vec<SortColumn>,
    pub sort_index: usize,
    pub order: SortOrder,
    pub first_draw_index: usize,
    pub props: DataTableProps,
    pub styling: DataTableStyling,
    pub data: Vec<CpuWidgetTableData>,
}

impl SortDataTable {
    pub fn new_sortable(
        columns: Vec<SortColumn>,
        props: SortDataTableProps,
        styling: DataTableStyling,
    ) -> (r: SortDataTable)
        ensures
            r.columns@ == columns@,
            r.sort_index == props.sort_index,
            r.order == props.order,
            r.first_draw_index == 0,
            r.props == props.inner,
            r.styling == styling,
            r.data@.len() == 0,
    {
        SortDataTable {
            columns,
            sort_index: props.sort_index,
            order: props.order,
            first_draw_index: 0,
            props: props.inner,
            styling,
            data: Vec::new(),
        }
    }

    /// The index of the active sort column.
    pub fn sort_index(&self) -> (r: usize)
        ensures
            r == self.sort_index,
    {
        self.sort_index
    }

    /// The direction the active column sorts in.
    pub fn order(&self) -> (r: SortOrder)
        ensures
            r == self.order,
    {
        self.order
    }

    /// Select this row when the table is first drawn.
    pub fn first_draw_index(self, index: usize) -> (r: SortDataTable)
        ensures
            r == (SortDataTable { first_draw_index: index, ..self }),
    {
        let mut this = self;
        this.first_draw_index = index;
        this
    }

    /// Replace the table's rows wholesale; everything else stays.
    pub fn set_data(&mut self, data: Vec<CpuWidgetTableData>)
        ensures
            final(self).data@ == data@,
            *final(self) == (SortDataTable { data: final(self).data, ..*old(self) }),
    {
        self.data = data;
    }
}

/// Everything the CPU widget keeps between frames.
pub struct CpuWidgetState {
    pub current_display_time: u64,
    pub is_legend_hidden: bool,
    pub show_avg: bool,
    pub autohide_timer: Option<std::time::Instant>,
    pub table: SortDataTable,
    pub styling: CpuWidgetStyling,
}

impl CpuWidgetState {
    pub open spec fn wf(self) -> bool {
        self.styling.wf()
    }

    /// Build the widget's state: a CPU column that first sorts descending
    /// and a usage column, sorted ascending by the CPU column to start, and
    /// the first drawn selection on the average row when the host both asks
    /// for it and shows one.
    pub fn new(
        config: &AppConfigFields,
        default_selection: CpuDefault,
        current_display_time: u64,
        autohide_timer: Option<std::time::Instant>,
        colours: &CanvasStyling,
    ) -> (r: CpuWidgetState)
        ensures
            r.wf(),
            r.current_display_time == current_display_time,
            r.is_legend_hidden == false,
            r.show_avg == config.show_average_cpu,
            r.autohide_timer == autohide_timer,
            r.table.columns@.len() == 2,
            r.table.columns@[0].column == CpuWidgetColumn::CPU,
            r.table.columns@[0].default_descending == true,
            r.table.columns@[1].column == CpuWidgetColumn::Use,
            r.table.columns@[1].default_descending == false,
            r.table.sort_index == 0,
            r.table.order == SortOrder::Ascending,
            r.table.data@.len() == 0,
            r.table.first_draw_index == (if default_selection == CpuDefault::Average
                && config.show_average_cpu {
                1int
            } else {
                0int
            }),
            r.table.props.title is None,
            r.table.props.table_gap == config.table_gap,
            r.table.props.left_to_right == false,
            r.table.props.is_basic == false,
            r.table.props.show_table_scroll_position == config.show_table_scroll_position,
            r.table.props.show_current_entry_when_unfocused == true,
            r.styling.all == colours.all_colour_style,
            r.styling.avg == colours.avg_colour_style,
    {
        let mut columns: Vec<SortColumn> = Vec::new();
        columns.push(SortColumn::soft(CpuWidgetColumn::CPU, None).default_descending());
        columns.push(SortColumn::soft(CpuWidgetColumn::Use, None));

        let props = SortDataTableProps {
            inner: DataTableProps {
                title: None,
                table_gap: config.table_gap,
                left_to_right: false,
                is_basic: false,
                show_table_scroll_position: config.show_table_scroll_position,
                show_current_entry_when_unfocused: true,
            },
            sort_index: 0,
            order: SortOrder::Ascending,
        };

        let styling = DataTableStyling::from_colours(colours);

        let mut table = SortDataTable::new_sortable(columns, props, styling);
        match default_selection {
            CpuDefault::All => {},
            CpuDefault::Average => {
                if config.show_average_cpu {
                    table = table.first_draw_index(1);
                }
            },
        }

        CpuWidgetState {
            current_display_time,
            is_legend_hidden: false,
            show_avg: config.show_average_cpu,
            autohide_timer,
            table,
            styling: CpuWidgetStyling::from_colours(colours),
        }
    }

    /// Replace the table's rows from the host's fresh data set: each item
    /// becomes a row, and if the active sort column exists the rows are
    /// sorted by it before they are stored; rows already in order are stored
    /// exactly as they came.
    pub fn update_table(&mut self, data: &Vec<CpuWidgetData>)
        ensures
            *final(self) == (CpuWidgetState { table: final(self).table, ..*old(self) }),
            final(self).table == (SortDataTable {
                data: final(self).table.data,
                ..old(self).table
            }),
            final(self).table.data@.len() == data@.len(),
            ({
                let mapped = data@.map_values(|d: CpuWidgetData| spec_from_cpu_widget_data(d));
                if old(self).table.sort_index < old(self).table.columns@.len() {
                    let column = old(self).table.columns@[old(self).table.sort_index as int].column;
                    let descending = old(self).table.order == SortOrder::Descending;
                    &&& final(self).table.data@.to_multiset() == mapped.to_multiset()
                    &&& spec_sorted_rows(final(self).table.data@, column, descending)
                    &&& (spec_sorted_rows(mapped, column, descending) ==> final(self).table.data@
                        == mapped)
                } else {
                    final(self).table.data@ == mapped
                }
            }),
    {
        let ghost mapped: Seq<CpuWidgetTableData> = data@.map_values(
            |d: CpuWidgetData| spec_from_cpu_widget_data(d),
        );
        let mut table_data: Vec<CpuWidgetTableData> = Vec::new();
        let mut i: usize = 0;
        while i < data.len()
            invariant
                i <= data@.len(),
                table_data@.len() == i,
                mapped == data@.map_values(|d: CpuWidgetData| spec_from_cpu_widget_data(d)),
                forall|j: int| 0 <= j < i ==> table_data@[j] == mapped[j],
            decreases data@.len() - i,
        {
            table_data.push(CpuWidgetTableData::from_cpu_widget_data(&data[i]));
            i = i + 1;
        }
        proof {
            assert(table_data@ =~= mapped);
        }
        if self.table.sort_index < self.table.columns.len() {
            let order: SortOrder = self.table.order;
            let idx: usize = self.table.sort_index;
            let column_ref = &self.table.columns[idx];
            let column: SortColumn = SortColumn {
                column: column_ref.column,
                max_percentage: column_ref.max_percentage,
                default_descending: column_ref.default_descending,
            };
            column.sort_by(&mut table_data, order);
        }
        self.table.set_data(table_data);
    }
}

} // verus!
