//! A searchable multi-select dialog: items with checkboxes, a
//! filter, and a selection.

use vstd::prelude::*;
use crate::strutil;
use crate::ui::searchable_list::SearchableListState;

verus! {

/// One selectable item.
#[derive(Debug, Clone, PartialEq, Eq)]
pub struct MultiSelectItem {
    pub id: String,
    pub title: String,
    pub description: String,
    pub checked: bool,
    pub disabled: bool,
}

/// Whether an item survives a filter query: an empty query keeps
/// everything; otherwise the query must occur (up to ASCII case) in
/// the title, the description, or the id.
pub open spec fn spec_item_matches(item: MultiSelectItem, query: Seq<char>) -> bool {
    ||| query.len() == 0
    ||| strutil::spec_contains_ci(item.title@, query)
    ||| strutil::spec_contains_ci(item.description@, query)
    ||| strutil::spec_contains_ci(item.id@, query)
}

/// The indices of the items among the first `n` that survive the
/// query, in ascending order.
pub open spec fn spec_matching_indices(items: Seq<MultiSelectItem>, query: Seq<char>, n: int) -> Seq<
    int,
>
    decreases n,
{
    if n <= 0 {
        Seq::empty()
    } else if spec_item_matches(items[n - 1], query) {
        spec_matching_indices(items, query, n - 1).push(n - 1)
    } else {
        spec_matching_indices(items, query, n - 1)
    }
}

/// The ids of the checked items, in order.
pub open spec fn spec_checked_ids(items: Seq<MultiSelectItem>) -> Seq<Seq<char>>
    decreases items.len(),
{
    if items.len() == 0 {
        Seq::empty()
    } else if items.last().checked {
        spec_checked_ids(items.drop_last()).push(items.last().id@)
    } else {
        spec_checked_ids(items.drop_last())
    }
}

/// The dialog's state.
#[derive(Debug, Clone, PartialEq, Eq)]
pub struct MultiSelectDialogState {
    pub visible: bool,
    pub title: String,
    pub subtitle: Option<String>,
    pub items: Vec<MultiSelectItem>,
    pub list: SearchableListState,
    pub validation_error: Option<String>,
}

impl MultiSelectDialogState {
    /// The filter result indexes into the item vector and matches
    /// the current (trimmed) query.
    pub open spec fn wf(self) -> bool {
        &&& self.list.wf()
        &&& forall|k: int|
            0 <= k < self.list.filtered@.len() ==> (#[trigger] self.list.filtered@[k])
                < self.items@.len()
    }

    /// A fresh, hidden, empty dialog.
    pub fn new(max_visible: usize) -> (r: MultiSelectDialogState)
        ensures
            r.wf(),
            !r.visible,
            r.items@.len() == 0,
            r.validation_error is None,
    {
        MultiSelectDialogState {
            visible: false,
            title: String::new(),
            subtitle: None,
            items: Vec::new(),
            list: SearchableListState::new(max_visible),
            validation_error: None,
        }
    }

    /// Installs a title, a subtitle, and the items, clears any
    /// validation error, and recomputes the filter over an empty
    /// query.
    pub fn configure(&mut self, title: String, subtitle: Option<String>, items: Vec<MultiSelectItem>)
        requires
            old(self).wf(),
        ensures
            final(self).wf(),
            final(self).title == title,
            final(self).subtitle == subtitle,
            final(self).items == items,
            final(self).validation_error is None,
            final(self).visible == old(self).visible,
    {
        self.title = title;
        self.subtitle = subtitle;
        self.items = items;
        self.list.reset();
        self.validation_error = None;
        self.update_filter();
    }

    /// Shows the dialog, clearing any validation error and
    /// recomputing the filter.
    pub fn show(&mut self)
        requires
            old(self).wf(),
        ensures
            final(self).wf(),
            final(self).visible,
            final(self).validation_error is None,
            final(self).items == old(self).items,
    {
        self.visible = true;
        self.validation_error = None;
        self.update_filter();
    }

    /// Hides the dialog; the rest of the state is kept.
    pub fn dismiss(&mut self)
        requires
            old(self).wf(),
        ensures
            final(self).wf(),
            !final(self).visible,
            final(self).items == old(self).items,
            final(self).list == old(self).list,
    {
        self.visible = false;
    }

    /// Whether the dialog is visible.
    pub fn is_visible(&self) -> (r: bool)
        ensures
            r == self.visible,
    {
        self.visible
    }

    /// Recomputes the filter: the trimmed search text is matched,
    /// up to ASCII case, against each item's title, description,
    /// and id; selection and scroll reset.
    pub fn update_filter(&mut self)
        requires
            old(self).wf(),
        ensures
            final(self).wf(),
            final(self).items == old(self).items,
            final(self).visible == old(self).visible,
            final(self).title == old(self).title,
            final(self).subtitle == old(self).subtitle,
            final(self).validation_error == old(self).validation_error,
            final(self).list.search == old(self).list.search,
            final(self).list.filtered@.map_values(|v: usize| v as int) == spec_matching_indices(
                old(self).items@,
                old(self).spec_query(),
                old(self).items@.len() as int,
            ),
    {
        let query = strutil::trim_chars(&self.list.search.chars);
        let ghost q = self.spec_query();
        let mut filtered: Vec<usize> = Vec::new();
        let mut i: usize = 0;
        proof {
            assert(filtered@.map_values(|v: usize| v as int) =~= spec_matching_indices(
                self.items@,
                q,
                0,
            ));
        }
        while i < self.items.len()
            invariant
                i <= self.items@.len(),
                query@ == q,
                q == strutil::spec_trim(self.list.search.chars@),
                forall|k: int|
                    0 <= k < filtered@.len() ==> (#[trigger] filtered@[k]) < i,
                filtered@.map_values(|v: usize| v as int) == spec_matching_indices(
                    self.items@,
                    q,
                    i as int,
                ),
            decreases self.items@.len() - i,
        {
            let ghost prev = filtered@;
            if item_matches(&self.items[i], &query) {
                filtered.push(i);
                proof {
                    assert(filtered@.map_values(|v: usize| v as int) =~= prev.map_values(
                        |v: usize| v as int,
                    ).push(i as int));
                }
            }
            i = i + 1;
        }
        proof {
            assert(forall|k: int|
                0 <= k < filtered@.len() ==> (#[trigger] filtered@[k]) < self.items@.len());
        }
        self.list.set_filtered(filtered);
    }

    /// The trimmed search query the filter was computed over.
    pub open spec fn spec_query(self) -> Seq<char> {
        strutil::spec_trim(self.list.search.chars@)
    }

    /// Inserts a character into the search text and refilters.
    pub fn insert_char(&mut self, c: char)
        requires
            old(self).wf(),
        ensures
            final(self).wf(),
            final(self).items == old(self).items,
            final(self).list.filtered@.map_values(|v: usize| v as int) == spec_matching_indices(
                final(self).items@,
                final(self).spec_query(),
                final(self).items@.len() as int,
            ),
    {
        self.list.search.insert_char(c);
        self.update_filter();
    }

    /// Inserts each non-control character of a string and refilters.
    pub fn insert_str(&mut self, s: &str)
        requires
            old(self).wf(),
        ensures
            final(self).wf(),
            final(self).items == old(self).items,
            final(self).list.filtered@.map_values(|v: usize| v as int) == spec_matching_indices(
                final(self).items@,
                final(self).spec_query(),
                final(self).items@.len() as int,
            ),
    {
        let chars = strutil::str_chars(s);
        let mut i: usize = 0;
        while i < chars.len()
            invariant
                self.wf(),
                i <= chars@.len(),
                self.items == old(self).items,
            decreases chars@.len() - i,
        {
            if !strutil::is_control_char(chars[i]) {
                self.list.search.insert_char(chars[i]);
            }
            i = i + 1;
        }
        self.update_filter();
    }

    /// Deletes the character before the search cursor and refilters.
    pub fn delete_char(&mut self)
        requires
            old(self).wf(),
        ensures
            final(self).wf(),
            final(self).items == old(self).items,
            final(self).list.filtered@.map_values(|v: usize| v as int) == spec_matching_indices(
                final(self).items@,
                final(self).spec_query(),
                final(self).items@.len() as int,
            ),
    {
        self.list.search.delete_char();
        self.update_filter();
    }

    /// Deletes the character at the search cursor and refilters.
    pub fn delete_forward(&mut self)
        requires
            old(self).wf(),
        ensures
            final(self).wf(),
            final(self).items == old(self).items,
            final(self).list.filtered@.map_values(|v: usize| v as int) == spec_matching_indices(
                final(self).items@,
                final(self).spec_query(),
                final(self).items@.len() as int,
            ),
    {
        self.list.search.delete_forward();
        self.update_filter();
    }

    /// Moves the search cursor left.
    pub fn move_cursor_left(&mut self)
        requires
            old(self).wf(),
        ensures
            final(self).wf(),
            final(self).items == old(self).items,
            final(self).list.filtered == old(self).list.filtered,
    {
        self.list.search.move_left();
    }

    /// Moves the search cursor right.
    pub fn move_cursor_right(&mut self)
        requires
            old(self).wf(),
        ensures
            final(self).wf(),
            final(self).items == old(self).items,
            final(self).list.filtered == old(self).list.filtered,
    {
        self.list.search.move_right();
    }

    /// Moves the search cursor to the start.
    pub fn move_cursor_start(&mut self)
        requires
            old(self).wf(),
        ensures
            final(self).wf(),
            final(self).items == old(self).items,
            final(self).list.filtered == old(self).list.filtered,
    {
        self.list.search.move_start();
    }

    /// Moves the search cursor to the end.
    pub fn move_cursor_end(&mut self)
        requires
            old(self).wf(),
        ensures
            final(self).wf(),
            final(self).items == old(self).items,
            final(self).list.filtered == old(self).list.filtered,
    {
        self.list.search.move_end();
    }

    /// Moves the selection one row down.
    pub fn select_next(&mut self)
        requires
            old(self).wf(),
        ensures
            final(self).wf(),
            final(self).items == old(self).items,
            final(self).list.filtered == old(self).list.filtered,
    {
        self.list.select_next();
    }

    /// Moves the selection one row up.
    pub fn select_previous(&mut self)
        requires
            old(self).wf(),
        ensures
            final(self).wf(),
            final(self).items == old(self).items,
            final(self).list.filtered == old(self).list.filtered,
    {
        self.list.select_prev();
    }

    /// Selects the entry on a visible row, if that row holds one.
    pub fn select_at_row(&mut self, row: usize) -> (r: bool)
        requires
            old(self).wf(),
        ensures
            final(self).wf(),
            final(self).items == old(self).items,
            final(self).list.filtered == old(self).list.filtered,
    {
        self.list.select_at_row(row)
    }

    /// Toggles the checkbox of the selected item: refused (returning
    /// `false`) when nothing is selected or the item is disabled;
    /// otherwise flips it and clears any validation error.
    pub fn toggle_selected(&mut self) -> (r: bool)
        requires
            old(self).wf(),
        ensures
            final(self).wf(),
            final(self).list == old(self).list,
            r == (old(self).list.filtered@.len() > 0 && !old(self).items@[old(self).list.filtered@[old(self).list.selected as int] as int].disabled),
            !r ==> final(self).items == old(self).items && final(self).validation_error == old(self).validation_error,
            r ==> final(self).validation_error is None && {
                let idx = old(self).list.filtered@[old(self).list.selected as int] as int;
                &&& final(self).items@.len() == old(self).items@.len()
                &&& final(self).items@[idx].checked == !old(self).items@[idx].checked
                &&& !old(self).items@[idx].disabled
                &&& forall|k: int|
                    0 <= k < old(self).items@.len() && k != idx ==> final(self).items@[k] == old(self).items@[k]
                &&& final(self).items@[idx].id == old(self).items@[idx].id
                &&& final(self).items@[idx].title == old(self).items@[idx].title
                &&& final(self).items@[idx].description == old(self).items@[idx].description
                &&& final(self).items@[idx].disabled == old(self).items@[idx].disabled
            },
    {
        if self.list.selected >= self.list.filtered.len() {
            return false;
        }
        let idx = self.list.filtered[self.list.selected];
        proof {
            assert(idx < self.items@.len());
        }
        if self.items[idx].disabled {
            return false;
        }
        let flipped = MultiSelectItem {
            id: self.items[idx].id.clone(),
            title: self.items[idx].title.clone(),
            description: self.items[idx].description.clone(),
            checked: !self.items[idx].checked,
            disabled: self.items[idx].disabled,
        };
        self.items.set(idx, flipped);
        self.validation_error = None;
        true
    }

    /// The selected item, if any.
    pub fn selected_item(&self) -> (r: Option<&MultiSelectItem>)
        requires
            self.wf(),
        ensures
            match r {
                Some(item) => self.list.selected < self.list.filtered@.len() && *item
                    == self.items@[self.list.filtered@[self.list.selected as int] as int],
                None => self.list.filtered@.len() == 0,
            },
    {
        if self.list.selected < self.list.filtered.len() {
            let idx = self.list.filtered[self.list.selected];
            proof {
                assert(idx < self.items@.len());
            }
            Some(&self.items[idx])
        } else {
            None
        }
    }

    /// The ids of the checked items, in item order.
    pub fn selected_ids(&self) -> (r: Vec<String>)
        ensures
            r@.map_values(|s: String| s@) == spec_checked_ids(self.items@),
    {
        let mut out: Vec<String> = Vec::new();
        let mut i: usize = 0;
        while i < self.items.len()
            invariant
                i <= self.items@.len(),
                out@.map_values(|s: String| s@) == spec_checked_ids(self.items@.take(i as int)),
            decreases self.items@.len() - i,
        {
            if self.items[i].checked {
                out.push(self.items[i].id.clone());
            }
            i = i + 1;
            proof {
                assert(self.items@.take(i as int).drop_last() =~= self.items@.take(i - 1));
                assert(self.items@.take(i as int).last() == self.items@[i - 1]);
                assert(out@.map_values(|s: String| s@) =~= spec_checked_ids(
                    self.items@.take(i as int),
                ));
            }
        }
        proof {
            assert(self.items@.take(self.items@.len() as int) =~= self.items@);
        }
        out
    }
}

/// Executable test for `spec_item_matches`.
fn item_matches(item: &MultiSelectItem, query: &Vec<char>) -> (r: bool)
    ensures
        r == spec_item_matches(*item, query@),
{
    if query.len() == 0 {
        return true;
    }
    let title = strutil::str_chars(item.title.as_str());
    if strutil::contains_ci(&title, query) {
        return true;
    }
    let description = strutil::str_chars(item.description.as_str());
    if strutil::contains_ci(&description, query) {
        return true;
    }
    let id = strutil::str_chars(item.id.as_str());
    strutil::contains_ci(&id, query)
}

/// The dialog widget: rendering belongs to the caller, which draws
/// from a `MultiSelectDialogState`.
#[derive(Debug, Clone, Copy, PartialEq, Eq, Structural)]
pub struct MultiSelectDialog;

impl MultiSelectDialog {
    /// The widget.
    pub fn new() -> (r: MultiSelectDialog) {
        MultiSelectDialog
    }
}

} // verus!
