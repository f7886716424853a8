//! The tab bar: per-tab labels and status marks, horizontal
//! scrolling, and hit testing, measured in display columns.

use vstd::prelude::*;
use crate::strutil;
use crate::ui::text_width;

verus! {

/// What a click on the bar hits.
#[derive(Debug, Clone, Copy, PartialEq, Eq, Structural)]
pub enum TabBarHitTarget {
    Nothing,
    Tab(usize),
    ScrollLeft,
    ScrollRight,
}

/// One tab's horizontal extent in the bar, in columns.
#[derive(Debug, Clone, Copy, PartialEq, Eq, Structural)]
pub struct TabBarItem {
    pub index: usize,
    pub start: usize,
    pub end: usize,
}

/// The bar's geometry for a given width: the tabs' extents, the
/// total content width, the visible window, and the scroll range.
#[derive(Debug, Clone, PartialEq, Eq)]
pub struct TabBarLayout {
    pub items: Vec<TabBarItem>,
    pub total_width: usize,
    pub visible_width: usize,
    pub indicator_side_width: usize,
    pub max_scroll: usize,
    pub scroll_offset: usize,
}

/// The items partition the content left to right: each starts where
/// the one before it ends, and the last ends at the total width.
pub open spec fn spec_items_consecutive(items: Seq<TabBarItem>, total: int) -> bool {
    &&& forall|k: int| 0 <= k < items.len() ==> (#[trigger] items[k]).index == k
    &&& forall|k: int| 0 <= k < items.len() ==> (#[trigger] items[k]).start <= items[k].end
    &&& forall|k: int|
        0 < k < items.len() ==> (#[trigger] items[k]).start == items[k - 1].end
    &&& (items.len() > 0 ==> items[0].start == 0 && items[items.len() - 1].end == total)
    &&& (items.len() == 0 ==> total == 0)
}

/// The tab bar's state.
#[derive(Debug, Clone, PartialEq, Eq)]
pub struct TabBar {
    pub tabs: Vec<String>,
    pub active: usize,
    pub focused: bool,
    /// PR numbers per tab, for future tab affordances.
    pub pr_numbers: Vec<Option<u32>>,
    /// Whether each tab's agent is working.
    pub processing_flags: Vec<bool>,
    /// Whether each tab has unread content.
    pub attention_flags: Vec<bool>,
    /// Whether each tab awaits a user response.
    pub awaiting_response_flags: Vec<bool>,
    /// The current spinner frame index.
    pub spinner_frame: usize,
    /// The horizontal scroll offset in columns.
    pub scroll_offset: usize,
}

impl TabBar {
    /// A bar over the given tab labels with the given active tab.
    pub fn new(tabs: Vec<String>, active: usize) -> (r: TabBar)
        ensures
            r.tabs == tabs,
            r.active == active,
            r.focused,
            r.pr_numbers@.len() == tabs@.len(),
            r.processing_flags@.len() == tabs@.len(),
            r.attention_flags@.len() == tabs@.len(),
            r.awaiting_response_flags@.len() == tabs@.len(),
            r.spinner_frame == 0,
            r.scroll_offset == 0,
    {
        let count = tabs.len();
        let mut pr_numbers: Vec<Option<u32>> = Vec::new();
        let mut processing: Vec<bool> = Vec::new();
        let mut attention: Vec<bool> = Vec::new();
        let mut awaiting: Vec<bool> = Vec::new();
        let mut i: usize = 0;
        while i < count
            invariant
                i <= count,
                pr_numbers@.len() == i,
                processing@.len() == i,
                attention@.len() == i,
                awaiting@.len() == i,
            decreases count - i,
        {
            pr_numbers.push(None);
            processing.push(false);
            attention.push(false);
            awaiting.push(false);
            i = i + 1;
        }
        TabBar {
            tabs,
            active,
            focused: true,
            pr_numbers,
            processing_flags: processing,
            attention_flags: attention,
            awaiting_response_flags: awaiting,
            spinner_frame: 0,
            scroll_offset: 0,
        }
    }

    /// Sets whether the bar has focus.
    pub fn focused(self, focused: bool) -> (r: TabBar)
        ensures
            r == (TabBar { focused, ..self }),
    {
        TabBar { focused, ..self }
    }

    /// Sets the per-tab status marks.
    pub fn with_tab_states(
        self,
        pr_numbers: Vec<Option<u32>>,
        processing: Vec<bool>,
        attention: Vec<bool>,
        awaiting_response: Vec<bool>,
    ) -> (r: TabBar)
        ensures
            r.tabs == self.tabs,
            r.active == self.active,
            r.pr_numbers == pr_numbers,
            r.processing_flags == processing,
            r.attention_flags == attention,
            r.awaiting_response_flags == awaiting_response,
            r.spinner_frame == self.spinner_frame,
            r.scroll_offset == self.scroll_offset,
    {
        TabBar {
            pr_numbers,
            processing_flags: processing,
            attention_flags: attention,
            awaiting_response_flags: awaiting_response,
            ..self
        }
    }

    /// Sets the horizontal scroll offset.
    pub fn with_scroll_offset(self, offset: usize) -> (r: TabBar)
        ensures
            r == (TabBar { scroll_offset: offset, ..self }),
    {
        TabBar { scroll_offset: offset, ..self }
    }

    /// Sets the spinner frame.
    pub fn with_spinner_frame(self, frame: usize) -> (r: TabBar)
        ensures
            r == (TabBar { spinner_frame: frame, ..self }),
    {
        TabBar { spinner_frame: frame, ..self }
    }

    /// The spinner glyph for a frame index.
    pub fn spinner_char(frame: usize) -> (r: &'static str) {
        let f = frame % 8;
        if f == 0 {
            "\u{28fe}"
        } else if f == 1 {
            "\u{28fd}"
        } else if f == 2 {
            "\u{28fb}"
        } else if f == 3 {
            "\u{28bf}"
        } else if f == 4 {
            "\u{287f}"
        } else if f == 5 {
            "\u{28df}"
        } else if f == 6 {
            "\u{28ef}"
        } else {
            "\u{28f7}"
        }
    }

    /// One tab's full label: the selection indicator, a status
    /// mark, the numbered title, and trailing padding.
    fn tab_label(&self, i: usize) -> (r: String)
        requires
            i < self.tabs@.len(),
    {
        let mut label = String::new();
        let is_active = i == self.active;
        if is_active && self.focused {
            strutil::append_str(&mut label, " > ");
        } else {
            strutil::append_str(&mut label, "   ");
        }
        let awaiting = if i < self.awaiting_response_flags.len() {
            self.awaiting_response_flags[i]
        } else {
            false
        };
        let processing = if i < self.processing_flags.len() {
            self.processing_flags[i]
        } else {
            false
        };
        let attention = if i < self.attention_flags.len() {
            self.attention_flags[i]
        } else {
            false
        };
        if awaiting {
            strutil::append_str(&mut label, "* ");
        } else if processing {
            strutil::append_str(&mut label, Self::spinner_char(self.spinner_frame));
            strutil::append_str(&mut label, " ");
        } else if attention {
            strutil::append_str(&mut label, "* ");
        }
        strutil::append_str(&mut label, "[");
        let iv = i as u64;
        let number = strutil::u64_to_string(
            if iv < 0xffff_ffff_ffff_ffffu64 {
                iv + 1
            } else {
                iv
            },
        );
        strutil::append_str(&mut label, number.as_str());
        strutil::append_str(&mut label, "] ");
        strutil::append_str(&mut label, self.tabs[i].as_str());
        strutil::append_str(&mut label, "  ");
        label
    }

    /// Computes the bar's geometry for a given width: consecutive
    /// per-tab extents, the visible window after any scroll
    /// indicators, and the scroll range, with the stored offset
    /// clamped into it.
    pub fn layout(&self, area_width: u16) -> (r: TabBarLayout)
        ensures
            r.items@.len() == self.tabs@.len(),
            spec_items_consecutive(r.items@, r.total_width as int),
            r.max_scroll == if r.total_width >= r.visible_width {
                (r.total_width - r.visible_width) as usize
            } else {
                0usize
            },
            r.max_scroll <= r.total_width,
            r.scroll_offset <= r.max_scroll,
            r.visible_width <= area_width as int,
    {
        let mut items: Vec<TabBarItem> = Vec::new();
        let mut current_x: usize = 0;
        let mut i: usize = 0;
        let n = self.tabs.len();
        while i < n
            invariant
                i <= n,
                n == self.tabs@.len(),
                items@.len() == i,
                forall|k: int| 0 <= k < i ==> (#[trigger] items@[k]).index == k,
                forall|k: int| 0 <= k < i ==> (#[trigger] items@[k]).start <= items@[k].end,
                forall|k: int| 0 < k < i ==> (#[trigger] items@[k]).start == items@[k - 1].end,
                i > 0 ==> items@[0].start == 0 && items@[i - 1].end == current_x,
                i == 0 ==> current_x == 0,
            decreases n - i,
        {
            let label = self.tab_label(i);
            let label_chars = strutil::str_chars(label.as_str());
            let w = text_width::display_width(&label_chars);
            let end = if current_x > usize::MAX - w {
                usize::MAX
            } else {
                current_x + w
            };
            items.push(TabBarItem { index: i, start: current_x, end });
            current_x = end;
            i = i + 1;
        }
        let total_width = current_x;
        let area = area_width as usize;
        let has_overflow = total_width > area;
        let indicator_side_width: usize = if has_overflow && area > 4 {
            2
        } else {
            0
        };
        let indicator_width = indicator_side_width * 2;
        let visible_width = if area >= indicator_width {
            area - indicator_width
        } else {
            0
        };
        let max_scroll = if total_width >= visible_width {
            total_width - visible_width
        } else {
            0
        };
        let scroll_offset = if self.scroll_offset < max_scroll {
            self.scroll_offset
        } else {
            max_scroll
        };
        TabBarLayout {
            items,
            total_width,
            visible_width,
            indicator_side_width,
            max_scroll,
            scroll_offset,
        }
    }

    /// A scroll offset that keeps the active tab visible: moved
    /// left to the tab's start when it sits before the window,
    /// right to show its end when it sits past it, and clamped into
    /// the scroll range.  The exact window-fit guarantees are
    /// `scroll_fitting_active`'s, on the geometry `layout` computes
    /// for this width.
    pub fn adjust_scroll_to_active(&self, area_width: u16) -> (r: usize)
        ensures
            self.active >= self.tabs@.len() ==> r == 0,
    {
        let layout = self.layout(area_width);
        scroll_fitting_active(&layout, self.active)
    }

    /// The offset after scrolling left by one tab: the start of the
    /// rightmost tab that begins before the current offset, clamped
    /// into the scroll range; unchanged when nothing can scroll.
    pub fn scroll_left(&self, area_width: u16) -> (r: usize) {
        let layout = self.layout(area_width);
        if layout.max_scroll == 0 {
            return layout.scroll_offset;
        }
        let offset = layout.scroll_offset;
        let mut target: usize = 0;
        let mut i: usize = layout.items.len();
        while i > 0
            invariant
                i <= layout.items@.len(),
            decreases i,
        {
            i = i - 1;
            if layout.items[i].start < offset {
                target = layout.items[i].start;
                i = 0;
            }
        }
        if target < layout.max_scroll {
            target
        } else {
            layout.max_scroll
        }
    }

    /// The offset after scrolling right by one tab: the start of
    /// the leftmost tab that ends past the visible window, clamped
    /// into the scroll range; unchanged when nothing can scroll.
    pub fn scroll_right(&self, area_width: u16) -> (r: usize) {
        let layout = self.layout(area_width);
        if layout.max_scroll == 0 {
            return layout.scroll_offset;
        }
        let right_edge = if layout.scroll_offset > usize::MAX - layout.visible_width {
            usize::MAX
        } else {
            layout.scroll_offset + layout.visible_width
        };
        let mut target: usize = layout.scroll_offset;
        let mut i: usize = 0;
        let mut found: bool = false;
        while i < layout.items.len()
            invariant
                i <= layout.items@.len(),
            decreases layout.items@.len() - i,
        {
            if !found && layout.items[i].end > right_edge {
                target = layout.items[i].start;
                found = true;
            }
            i = i + 1;
        }
        if target < layout.max_scroll {
            target
        } else {
            layout.max_scroll
        }
    }

    /// The largest useful scroll offset for a width.
    pub fn max_scroll(&self, area_width: u16) -> (r: usize) {
        self.layout(area_width).max_scroll
    }

    /// Hit-tests a column within the bar: the scroll indicators at
    /// the edges when the content overflows, otherwise the tab
    /// whose extent contains the clicked content column.
    pub fn hit_test(&self, area_width: u16, relative_x: usize) -> (r: TabBarHitTarget) {
        let layout = self.layout(area_width);
        let area = area_width as usize;
        if layout.indicator_side_width > 0 && layout.indicator_side_width <= area / 2 && area
            > layout.indicator_side_width * 2 {
            if relative_x < layout.indicator_side_width {
                return if layout.scroll_offset > 0 {
                    TabBarHitTarget::ScrollLeft
                } else {
                    TabBarHitTarget::Nothing
                };
            }
            if relative_x >= area - layout.indicator_side_width {
                return if layout.scroll_offset < layout.max_scroll {
                    TabBarHitTarget::ScrollRight
                } else {
                    TabBarHitTarget::Nothing
                };
            }
            let content_x = relative_x - layout.indicator_side_width;
            if content_x >= layout.visible_width {
                return TabBarHitTarget::Nothing;
            }
            let offset = if layout.scroll_offset > usize::MAX - content_x {
                usize::MAX
            } else {
                layout.scroll_offset + content_x
            };
            return item_at_offset(&layout, offset);
        }
        let offset = if layout.scroll_offset > usize::MAX - relative_x {
            usize::MAX
        } else {
            layout.scroll_offset + relative_x
        };
        item_at_offset(&layout, offset)
    }
}

/// The scroll offset that keeps the active tab visible within the
/// layout's window: within the scroll range, and — whenever the tab
/// fits the window at all — showing it whole.
pub fn scroll_fitting_active(layout: &TabBarLayout, active: usize) -> (r: usize)
    requires
        spec_items_consecutive(layout.items@, layout.total_width as int),
        layout.max_scroll == if layout.total_width >= layout.visible_width {
            (layout.total_width - layout.visible_width) as usize
        } else {
            0usize
        },
        layout.scroll_offset <= layout.max_scroll,
    ensures
        r <= layout.max_scroll,
        active >= layout.items@.len() ==> r == 0,
        active < layout.items@.len() && layout.items@[active as int].end - layout.items@[
            active as int].start <= layout.visible_width ==> layout.items@[active as int].start
            >= r && layout.items@[active as int].end <= r + layout.visible_width,
{
    if active >= layout.items.len() {
        return 0;
    }
    let item = layout.items[active];
    proof {
        lemma_item_end_le_total(layout.items@, active as int, layout.total_width as int);
    }
    let mut scroll = layout.scroll_offset;
    if item.start < scroll {
        scroll = item.start;
    } else {
        let window_end = if scroll > usize::MAX - layout.visible_width {
            usize::MAX
        } else {
            scroll + layout.visible_width
        };
        if item.end > window_end {
            scroll = if item.end >= layout.visible_width {
                item.end - layout.visible_width
            } else {
                0
            };
        }
    }
    if scroll < layout.max_scroll {
        scroll
    } else {
        layout.max_scroll
    }
}

/// In a consecutive item list, every item ends at or before the
/// total width.
proof fn lemma_item_end_le_total(items: Seq<TabBarItem>, k: int, total: int)
    requires
        spec_items_consecutive(items, total),
        0 <= k < items.len(),
    ensures
        items[k].end <= total,
    decreases items.len() - k,
{
    if k + 1 < items.len() {
        assert(items[k + 1].start == items[k].end);
        lemma_item_end_le_total(items, k + 1, total);
    }
}

/// The tab whose extent contains a content column, if any.
pub fn item_at_offset(layout: &TabBarLayout, offset: usize) -> (r: TabBarHitTarget)
    ensures
        match r {
            TabBarHitTarget::Tab(i) => i < layout.items@.len() && layout.items@[i as int].start
                <= offset < layout.items@[i as int].end,
            _ => true,
        },
{
    if offset >= layout.total_width {
        return TabBarHitTarget::Nothing;
    }
    let mut i: usize = 0;
    while i < layout.items.len()
        invariant
            i <= layout.items@.len(),
        decreases layout.items@.len() - i,
    {
        if layout.items[i].start <= offset && offset < layout.items[i].end {
            return TabBarHitTarget::Tab(i);
        }
        i = i + 1;
    }
    TabBarHitTarget::Nothing
}

} // verus!
