//! The decisions of the repository table viewer: paging through the hosting
//! service's search results, and moving the selected row.
use vstd::prelude::*;

verus! {

/// The cursor of the next page of search results, where there is one.
pub fn continue_search(has_next_page: bool, end_cursor: Option<String>) -> (r: Option<String>)
    ensures
        !has_next_page ==> r is None,
        has_next_page ==> r == end_cursor,
{
    if !has_next_page {
        return None;
    }
    end_cursor
}

/// The selected row of a table of `len` rows.
#[derive(Debug, Clone, Copy, PartialEq, Eq, Structural)]
pub struct TableCursor {
    pub selected: usize,
    pub len: usize,
}

impl TableCursor {
    /// Whether the selected row is one of the table's.
    pub open spec fn wf(self) -> bool {
        self.selected < self.len
    }

    /// The first row of a table of `len` rows, selected.
    pub fn new(len: usize) -> (r: TableCursor)
        requires
            len > 0,
        ensures
            r.wf(),
            r.selected == 0,
            r.len == len,
    {
        TableCursor { selected: 0, len }
    }

    /// Selects the next row, or the first one after the last.
    pub fn move_down(&mut self)
        requires
            old(self).wf(),
        ensures
            final(self).wf(),
            final(self).len == old(self).len,
            final(self).selected == if old(self).selected + 1 == old(self).len {
                0
            } else {
                old(self).selected + 1
            },
    {
        if self.selected + 1 > self.len - 1 {
            self.selected = 0;
        } else {
            self.selected = self.selected + 1;
        }
    }

    /// Selects the previous row, or the last one before the first.
    pub fn move_up(&mut self)
        requires
            old(self).wf(),
        ensures
            final(self).wf(),
            final(self).len == old(self).len,
            final(self).selected == if old(self).selected == 0 {
                old(self).len - 1
            } else {
                old(self).selected - 1
            },
    {
        if self.selected > 0 {
            self.selected = self.selected - 1;
        } else {
            self.selected = self.len - 1;
        }
    }
}

} // verus!
