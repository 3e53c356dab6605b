//! Core of a terminal data-table widget: column-width allocation under
//! several sizing policies, a scroll/selection state machine that keeps the
//! chosen row visible, and per-column sorting that anchors aggregate rows to
//! one end of the table regardless of sort direction.

pub mod cpu_widget;
pub mod events;
pub mod scroll;
pub mod style;
pub mod temp_table;
pub mod text;
pub mod text_table;

use vstd::prelude::*;

verus! {

/// Viewports shorter than this never show the header-to-body gap row.
pub const TABLE_GAP_HEIGHT_LIMIT: u16 = 7;

} // verus!
