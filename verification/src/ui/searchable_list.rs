//! A filterable list with a selection and a scroll window.

use vstd::prelude::*;
use crate::ui::text_input::TextInputState;

verus! {

/// The list's state: the search input, the indices that survive the
/// current filter, the selected position within them, and the
/// scroll window.
#[derive(Debug, Clone, PartialEq, Eq)]
pub struct SearchableListState {
    pub search: TextInputState,
    /// Indices into the owner's item vector that match the filter,
    /// in ascending order.
    pub filtered: Vec<usize>,
    /// The selected position within `filtered`.
    pub selected: usize,
    /// The first visible position within `filtered`.
    pub scroll_offset: usize,
    /// How many rows are visible at once; at least one.
    pub max_visible: usize,
}

impl SearchableListState {
    /// The selection sits inside the filtered list (or at zero when
    /// the list is empty) and inside the scroll window.
    pub open spec fn wf(self) -> bool {
        &&& self.search.wf()
        &&& self.max_visible >= 1
        &&& (self.filtered@.len() == 0 ==> self.selected == 0 && self.scroll_offset == 0)
        &&& (self.filtered@.len() > 0 ==> self.selected < self.filtered@.len())
        &&& self.scroll_offset <= self.selected
        &&& self.selected - self.scroll_offset < self.max_visible
    }

    /// A fresh list with the given window height (raised to one).
    pub fn new(max_visible: usize) -> (r: SearchableListState)
        ensures
            r.wf(),
            r.filtered@.len() == 0,
            r.selected == 0,
            r.scroll_offset == 0,
            r.search.chars@.len() == 0,
            r.max_visible == if max_visible >= 1 {
                max_visible
            } else {
                1usize
            },
    {
        SearchableListState {
            search: TextInputState::new(),
            filtered: Vec::new(),
            selected: 0,
            scroll_offset: 0,
            max_visible: if max_visible >= 1 {
                max_visible
            } else {
                1
            },
        }
    }

    /// Clears the search text and the filter, resetting selection
    /// and scroll.
    pub fn reset(&mut self)
        requires
            old(self).wf(),
        ensures
            final(self).wf(),
            final(self).search.chars@.len() == 0,
            final(self).filtered@.len() == 0,
            final(self).selected == 0,
            final(self).scroll_offset == 0,
            final(self).max_visible == old(self).max_visible,
    {
        self.search.clear();
        self.filtered.clear();
        self.selected = 0;
        self.scroll_offset = 0;
    }

    /// Installs a new filter result, resetting selection and scroll.
    pub fn set_filtered(&mut self, filtered: Vec<usize>)
        requires
            old(self).wf(),
        ensures
            final(self).wf(),
            final(self).filtered == filtered,
            final(self).selected == 0,
            final(self).scroll_offset == 0,
            final(self).search == old(self).search,
            final(self).max_visible == old(self).max_visible,
    {
        self.filtered = filtered;
        self.selected = 0;
        self.scroll_offset = 0;
    }

    /// Scrolls just enough to keep the selection visible.
    fn adjust_scroll(&mut self)
        requires
            old(self).search.wf(),
            old(self).max_visible >= 1,
            old(self).filtered@.len() > 0 ==> old(self).selected < old(self).filtered@.len(),
            old(self).filtered@.len() == 0 ==> old(self).selected == 0,
        ensures
            final(self).wf(),
            final(self).search == old(self).search,
            final(self).filtered == old(self).filtered,
            final(self).selected == old(self).selected,
            final(self).max_visible == old(self).max_visible,
    {
        let n = self.filtered.len();
        proof {
            assert(n > 0 ==> self.selected < n);
        }
        if self.selected < self.scroll_offset {
            self.scroll_offset = self.selected;
        } else if self.selected - self.scroll_offset >= self.max_visible {
            self.scroll_offset = self.selected + 1 - self.max_visible;
        }
        if n == 0 {
            self.scroll_offset = 0;
        }
    }

    /// Moves the selection one row down, stopping at the end.
    pub fn select_next(&mut self)
        requires
            old(self).wf(),
        ensures
            final(self).wf(),
            final(self).filtered == old(self).filtered,
            final(self).search == old(self).search,
            final(self).max_visible == old(self).max_visible,
            final(self).selected == if old(self).filtered@.len() > 0 && old(self).selected + 1 < old(
                self,
            ).filtered@.len() {
                (old(self).selected + 1) as usize
            } else {
                old(self).selected
            },
    {
        if self.filtered.len() > 0 && self.selected + 1 < self.filtered.len() {
            self.selected = self.selected + 1;
            self.adjust_scroll();
        }
    }

    /// Moves the selection one row up, stopping at the start.
    pub fn select_prev(&mut self)
        requires
            old(self).wf(),
        ensures
            final(self).wf(),
            final(self).filtered == old(self).filtered,
            final(self).search == old(self).search,
            final(self).max_visible == old(self).max_visible,
            final(self).selected == if old(self).selected > 0 {
                (old(self).selected - 1) as usize
            } else {
                0usize
            },
    {
        if self.selected > 0 {
            self.selected = self.selected - 1;
            self.adjust_scroll();
        }
    }

    /// Selects the entry on a visible row, if that row holds one.
    pub fn select_at_row(&mut self, row: usize) -> (r: bool)
        requires
            old(self).wf(),
        ensures
            final(self).wf(),
            final(self).filtered == old(self).filtered,
            final(self).search == old(self).search,
            final(self).max_visible == old(self).max_visible,
            r == (row < old(self).max_visible && old(self).scroll_offset + row < old(
                self,
            ).filtered@.len()),
            r ==> final(self).selected == old(self).scroll_offset + row,
            !r ==> final(self).selected == old(self).selected,
    {
        if row < self.max_visible {
            let limit = self.filtered.len();
            if self.scroll_offset < limit && row < limit - self.scroll_offset {
                self.selected = self.scroll_offset + row;
                return true;
            }
        }
        false
    }

    /// Moves the selection to an arbitrary filtered position,
    /// scrolling so it is visible with up to two rows of context
    /// above.
    pub fn select_position(&mut self, pos: usize)
        requires
            old(self).wf(),
            pos < old(self).filtered@.len(),
        ensures
            final(self).wf(),
            final(self).filtered == old(self).filtered,
            final(self).search == old(self).search,
            final(self).max_visible == old(self).max_visible,
            final(self).selected == pos,
    {
        let n = self.filtered.len();
        proof {
            assert(pos < n);
        }
        self.selected = pos;
        self.scroll_offset = if pos >= 2 {
            pos - 2
        } else {
            0
        };
        if self.selected - self.scroll_offset >= self.max_visible {
            self.scroll_offset = self.selected + 1 - self.max_visible;
        }
    }
}

} // verus!
