//! A text table preconfigured to display temperature data: a sensor name
//! column and a temperature column.

use crate::events::{Event, Rect, Status};
use crate::text_table::{DrawnTable, TableRow, TextTable};
use vstd::prelude::*;

verus! {

/// A `TempTable` is a text table that is meant to display temperature data.
pub struct TempTable<Message> {
    pub inner: TextTable<Message>,
}

impl<Message> TempTable<Message> {
    pub fn new() -> (r: TempTable<Message>)
        ensures
            r.inner.wf(),
            r.inner.columns@.len() == 2,
            r.inner.columns@[0].name@ == "Sensor"@,
            r.inner.columns@[1].name@ == "Temp"@,
            r.inner.data@.len() == 0,
            r.inner.state.selected_index is None,
    {
        let mut names: Vec<String> = Vec::new();
        names.push("Sensor".to_owned());
        names.push("Temp".to_owned());
        let ghost name_views: Seq<String> = names@;
        let inner: TextTable<Message> = TextTable::new(names);
        proof {
            assert(inner.columns@[0].name@ == name_views[0]@);
            assert(inner.columns@[1].name@ == name_views[1]@);
        }
        TempTable { inner }
    }

    /// Replace the table's rows, as `TextTable::set_data` lays out.
    pub fn set_data(&mut self, data: Vec<TableRow>)
        requires
            old(self).inner.wf(),
        ensures
            final(self).inner.wf(),
            final(self).inner.data@ == data@,
    {
        self.inner.set_data(data);
    }

    /// Produce one frame, as `TextTable::draw` lays out.
    pub fn draw(&mut self, bounds: Rect) -> (r: DrawnTable)
        requires
            old(self).inner.wf(),
        ensures
            final(self).inner.wf(),
            r.headers@.len() == old(self).inner.columns@.len(),
            r.rows@.len() == final(self).inner.state.num_displayed,
            r.start_index == final(self).inner.state.start_offset,
    {
        self.inner.draw(bounds)
    }
}

impl<Message: Copy> TempTable<Message> {
    /// Handle one input event, as `TextTable::spec_on_event` lays out.
    pub fn on_event(&mut self, bounds: Rect, event: Event, messages: &mut Vec<Message>) -> (r:
        Status)
        requires
            old(self).inner.wf(),
        ensures
            final(self).inner.wf(),
            final(self).inner.state.selected_index == old(self).inner.spec_on_event(
                bounds,
                event,
            ).0,
            r == old(self).inner.spec_on_event(bounds, event).1,
            final(messages)@ == (match old(self).inner.spec_on_event(bounds, event).2 {
                Some(m) => old(messages)@.push(m),
                None => old(messages)@,
            }),
    {
        self.inner.on_event(bounds, event, messages)
    }
}

} // verus!
