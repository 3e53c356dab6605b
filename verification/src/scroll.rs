//! Scroll and selection state for a table viewport.
//!
//! Tracks the topmost visible row and the selected row, clamps every request
//! into range instead of failing, and keeps the selection inside the window
//! that the next draw will show.

use crate::events::Status;
use vstd::prelude::*;

verus! {

/// Scroll/selection state machine. All inputs are clamped; no request
/// panics or is rejected with an error, out-of-range requests simply
/// answer `Ignored`.
pub struct ScrollState {
    pub start_offset: usize,
    pub selected_index: Option<usize>,
    pub total_items: usize,
    pub num_displayed: usize,
}

impl ScrollState {
    /// Internal invariant: the selection points at an existing item and the
    /// displayed window `[start_offset, start_offset + num_displayed)` lies
    /// inside the item list.
    pub open spec fn wf(self) -> bool {
        &&& (self.selected_index matches Some(i) ==> i < self.total_items)
        &&& self.start_offset + self.num_displayed <= self.total_items
    }

    pub open spec fn spec_start_offset(self) -> int {
        self.start_offset as int
    }

    pub open spec fn spec_selected(self) -> Option<usize> {
        self.selected_index
    }

    pub open spec fn spec_total(self) -> int {
        self.total_items as int
    }

    pub open spec fn spec_num_displayed(self) -> int {
        self.num_displayed as int
    }

    pub fn new() -> (r: ScrollState)
        ensures
            r.wf(),
            r.spec_start_offset() == 0,
            r.spec_selected() is None,
            r.spec_total() == 0,
            r.spec_num_displayed() == 0,
    {
        ScrollState { start_offset: 0, selected_index: None, total_items: 0, num_displayed: 0 }
    }

    pub fn num_items(&self) -> (r: usize)
        ensures
            r == self.spec_total(),
    {
        self.total_items
    }

    pub fn selected_index(&self) -> (r: Option<usize>)
        ensures
            r == self.spec_selected(),
    {
        self.selected_index
    }

    pub fn start_offset(&self) -> (r: usize)
        ensures
            r == self.spec_start_offset(),
    {
        self.start_offset
    }

    /// Replace the item count after the data set changed. The selection is
    /// kept unless the new count is smaller, in which case it clamps to the
    /// new last index (and clears when the list became empty); the window is
    /// trimmed so it still lies inside the list.
    pub fn set_num_items(&mut self, n: usize)
        requires
            old(self).wf(),
        ensures
            final(self).wf(),
            final(self).spec_total() == n,
            final(self).spec_selected() == (match old(self).spec_selected() {
                Some(i) => if n == 0 {
                    Option::<usize>::None
                } else if i < n {
                    Some(i)
                } else {
                    Some((n - 1) as usize)
                },
                None => Option::<usize>::None,
            }),
            final(self).spec_start_offset() == vstd::math::min(
                old(self).spec_start_offset(),
                n as int,
            ),
            final(self).spec_num_displayed() == vstd::math::min(
                old(self).spec_num_displayed(),
                n - final(self).spec_start_offset(),
            ),
    {
        self.total_items = n;
        match self.selected_index {
            Some(i) => {
                if n == 0 {
                    self.selected_index = None;
                } else if i >= n {
                    self.selected_index = Some(n - 1);
                }
            },
            None => {},
        }
        if self.start_offset > n {
            self.start_offset = n;
        }
        if self.num_displayed > n - self.start_offset {
            self.num_displayed = n - self.start_offset;
        }
    }

    /// Where the selection lands after `move_down(n)`: down from a selection
    /// clamps to the last index; with no selection the first row is chosen;
    /// an empty list leaves nothing to select.
    pub open spec fn spec_moved_down(self, n: int) -> Option<usize> {
        if self.spec_total() == 0 {
            self.spec_selected()
        } else {
            match self.spec_selected() {
                None => Some(0usize),
                Some(i) => Some(vstd::math::min(i + n, self.spec_total() - 1) as usize),
            }
        }
    }

    /// Where the selection lands after `move_up(n)`: up from a selection
    /// clamps to index 0; with no selection the last row is chosen.
    pub open spec fn spec_moved_up(self, n: int) -> Option<usize> {
        if self.spec_total() == 0 {
            self.spec_selected()
        } else {
            match self.spec_selected() {
                None => Some((self.spec_total() - 1) as usize),
                Some(i) => Some(vstd::math::max(i - n, 0) as usize),
            }
        }
    }

    /// Move the selection `n` rows down, clamping to the last row.
    /// Answers `Captured` exactly when the selection changed.
    pub fn move_down(&mut self, n: usize) -> (r: Status)
        requires
            old(self).wf(),
        ensures
            final(self).wf(),
            final(self).spec_selected() == old(self).spec_moved_down(n as int),
            final(self).spec_start_offset() == old(self).spec_start_offset(),
            final(self).spec_total() == old(self).spec_total(),
            final(self).spec_num_displayed() == old(self).spec_num_displayed(),
            r == (if final(self).spec_selected() == old(self).spec_selected() {
                Status::Ignored
            } else {
                Status::Captured
            }),
    {
        if self.total_items == 0 {
            return Status::Ignored;
        }
        match self.selected_index {
            None => {
                self.selected_index = Some(0);
                Status::Captured
            },
            Some(i) => {
                let last: usize = self.total_items - 1;
                let target: usize = if n >= last - i {
                    last
                } else {
                    i + n
                };
                if target != i {
                    self.selected_index = Some(target);
                    Status::Captured
                } else {
                    Status::Ignored
                }
            },
        }
    }

    /// Move the selection `n` rows up, clamping to the first row.
    /// Answers `Captured` exactly when the selection changed.
    pub fn move_up(&mut self, n: usize) -> (r: Status)
        requires
            old(self).wf(),
        ensures
            final(self).wf(),
            final(self).spec_selected() == old(self).spec_moved_up(n as int),
            final(self).spec_start_offset() == old(self).spec_start_offset(),
            final(self).spec_total() == old(self).spec_total(),
            final(self).spec_num_displayed() == old(self).spec_num_displayed(),
            r == (if final(self).spec_selected() == old(self).spec_selected() {
                Status::Ignored
            } else {
                Status::Captured
            }),
    {
        if self.total_items == 0 {
            return Status::Ignored;
        }
        match self.selected_index {
            None => {
                self.selected_index = Some(self.total_items - 1);
                Status::Captured
            },
            Some(i) => {
                let target: usize = if n >= i {
                    0
                } else {
                    i - n
                };
                if target != i {
                    self.selected_index = Some(target);
                    Status::Captured
                } else {
                    Status::Ignored
                }
            },
        }
    }

    /// Select the row shown `visual_index` rows below the first visible row.
    /// The offset must already be adjusted for header and gap rows. An offset
    /// at or beyond the number of currently visible rows is a no-op answering
    /// `Ignored`, as is a click on the row that is already selected.
    pub fn set_visual_index(&mut self, visual_index: usize) -> (r: Status)
        requires
            old(self).wf(),
        ensures
            final(self).wf(),
            final(self).spec_start_offset() == old(self).spec_start_offset(),
            final(self).spec_total() == old(self).spec_total(),
            final(self).spec_num_displayed() == old(self).spec_num_displayed(),
            visual_index >= old(self).spec_num_displayed() ==> {
                &&& final(self).spec_selected() == old(self).spec_selected()
                &&& r == Status::Ignored
            },
            visual_index < old(self).spec_num_displayed() ==> final(self).spec_selected()
                == Some((old(self).spec_start_offset() + visual_index) as usize),
            visual_index < old(self).spec_num_displayed() ==> r == (if old(self).spec_selected()
                == final(self).spec_selected() {
                Status::Ignored
            } else {
                Status::Captured
            }),
    {
        if visual_index >= self.num_displayed {
            return Status::Ignored;
        }
        let absolute: usize = self.start_offset + visual_index;
        match self.selected_index {
            Some(i) if i == absolute => Status::Ignored,
            _ => {
                self.selected_index = Some(absolute);
                Status::Captured
            },
        }
    }

    /// The start offset the next draw will use, given the viewport height:
    /// pulled down to the selection, pushed up so the selection is the last
    /// visible row, forced to 0 when everything fits, and trimmed so the
    /// window never hangs past the end of the list.
    pub open spec fn spec_new_start(self, height: int) -> int {
        if height <= 0 {
            self.spec_start_offset()
        } else if self.spec_total() <= height {
            0
        } else {
            let pulled = match self.spec_selected() {
                Some(i) => if i < self.spec_start_offset() {
                    i as int
                } else if i >= self.spec_start_offset() + height {
                    i + 1 - height
                } else {
                    self.spec_start_offset()
                },
                None => self.spec_start_offset(),
            };
            if pulled > self.spec_total() - height {
                self.spec_total() - height
            } else {
                pulled
            }
        }
    }

    /// Compute the window of visible rows for a viewport of `height` rows,
    /// adjusting the start offset so that the selection (if any) is inside
    /// `[start, start + height)`, and remember how many rows are shown.
    /// Returns the new start offset; the window is
    /// `[start, min(total, start + height))`.
    pub fn display_start_index(&mut self, height: usize) -> (r: usize)
        requires
            old(self).wf(),
        ensures
            final(self).wf(),
            final(self).spec_selected() == old(self).spec_selected(),
            final(self).spec_total() == old(self).spec_total(),
            final(self).spec_start_offset() == old(self).spec_new_start(height as int),
            r == final(self).spec_start_offset(),
            final(self).spec_num_displayed() == vstd::math::min(
                final(self).spec_total(),
                final(self).spec_start_offset() + height,
            ) - final(self).spec_start_offset(),
            height > 0 ==> (final(self).spec_selected() matches Some(i)
                ==> final(self).spec_start_offset() <= i
                    < final(self).spec_start_offset() + height),
            final(self).spec_total() <= height ==> final(self).spec_start_offset() == 0,
    {
        if height == 0 {
            self.num_displayed = 0;
            return self.start_offset;
        }
        if self.total_items <= height {
            self.start_offset = 0;
            self.num_displayed = self.total_items;
            return 0;
        }
        match self.selected_index {
            Some(i) => {
                if i < self.start_offset {
                    self.start_offset = i;
                } else if i - self.start_offset >= height {
                    self.start_offset = i + 1 - height;
                }
            },
            None => {},
        }
        if self.start_offset > self.total_items - height {
            self.start_offset = self.total_items - height;
        }
        self.num_displayed = height;
        self.start_offset
    }
}

} // verus!
