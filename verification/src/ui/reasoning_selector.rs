//! The reasoning-effort selector dialog.

use vstd::prelude::*;
use crate::agent::{AgentType, ReasoningEffort};
use crate::strutil;
use crate::ui::searchable_list::SearchableListState;

verus! {

/// One selectable effort option.
#[derive(Debug, Clone, Copy, PartialEq, Eq)]
pub struct ReasoningOption {
    /// The effort this option applies, or nothing for the
    /// provider's default behaviour.
    pub effort: Option<ReasoningEffort>,
    pub label: &'static str,
    pub description: &'static str,
}

/// The options offered for a vendor: always the automatic default
/// first, then the vendor's supported efforts.
pub open spec fn spec_reasoning_efforts(agent: AgentType) -> Seq<Option<ReasoningEffort>> {
    match agent {
        AgentType::Nova => seq![
            None,
            Some(ReasoningEffort::Low),
            Some(ReasoningEffort::Medium),
            Some(ReasoningEffort::High),
        ],
        AgentType::Codex => seq![
            None,
            Some(ReasoningEffort::Minimal),
            Some(ReasoningEffort::Low),
            Some(ReasoningEffort::Medium),
            Some(ReasoningEffort::High),
            Some(ReasoningEffort::XHigh),
        ],
        AgentType::Gemini | AgentType::Opencode => seq![None],
    }
}

/// Whether an option survives a filter query: an empty query keeps
/// everything; otherwise the query must occur (up to ASCII case) in
/// the label or the description.
pub open spec fn spec_option_matches(option: ReasoningOption, query: Seq<char>) -> bool {
    ||| query.len() == 0
    ||| strutil::spec_contains_ci(option.label@, query)
    ||| strutil::spec_contains_ci(option.description@, query)
}

/// The selector's state.
#[derive(Debug, Clone, PartialEq, Eq)]
pub struct ReasoningSelectorState {
    pub visible: bool,
    pub agent_type: Option<AgentType>,
    pub options: Vec<ReasoningOption>,
    pub list: SearchableListState,
}

impl ReasoningSelectorState {
    /// The filter result indexes into the option vector.
    pub open spec fn wf(self) -> bool {
        &&& self.list.wf()
        &&& forall|k: int|
            0 <= k < self.list.filtered@.len() ==> (#[trigger] self.list.filtered@[k])
                < self.options@.len()
    }

    /// A fresh, hidden selector.
    pub fn new() -> (r: ReasoningSelectorState)
        ensures
            r.wf(),
            !r.visible,
            r.agent_type is None,
            r.options@.len() == 0,
    {
        ReasoningSelectorState {
            visible: false,
            agent_type: None,
            options: Vec::new(),
            list: SearchableListState::new(8),
        }
    }

    /// The options offered for a vendor, in order.
    pub fn build_options(agent: AgentType) -> (r: Vec<ReasoningOption>)
        ensures
            r@.len() == spec_reasoning_efforts(agent).len(),
            forall|k: int|
                0 <= k < r@.len() ==> (#[trigger] r@[k]).effort == spec_reasoning_efforts(agent)[k],
    {
        let mut options: Vec<ReasoningOption> = Vec::new();
        options.push(ReasoningOption {
            effort: None,
            label: "Auto",
            description: "Provider default reasoning behavior",
        });
        match agent {
            AgentType::Nova => {
                options.push(ReasoningOption {
                    effort: Some(ReasoningEffort::Low),
                    label: "Low",
                    description: "Faster and cheaper",
                });
                options.push(ReasoningOption {
                    effort: Some(ReasoningEffort::Medium),
                    label: "Medium",
                    description: "Balanced quality and speed",
                });
                options.push(ReasoningOption {
                    effort: Some(ReasoningEffort::High),
                    label: "High",
                    description: "Best quality, slower and costlier",
                });
            },
            AgentType::Codex => {
                options.push(ReasoningOption {
                    effort: Some(ReasoningEffort::Minimal),
                    label: "Minimal",
                    description: "Smallest reasoning budget",
                });
                options.push(ReasoningOption {
                    effort: Some(ReasoningEffort::Low),
                    label: "Low",
                    description: "Lower reasoning budget",
                });
                options.push(ReasoningOption {
                    effort: Some(ReasoningEffort::Medium),
                    label: "Medium",
                    description: "Balanced reasoning budget",
                });
                options.push(ReasoningOption {
                    effort: Some(ReasoningEffort::High),
                    label: "High",
                    description: "High reasoning budget",
                });
                options.push(ReasoningOption {
                    effort: Some(ReasoningEffort::XHigh),
                    label: "XHigh",
                    description: "Maximum reasoning budget",
                });
            },
            AgentType::Gemini | AgentType::Opencode => {},
        }
        options
    }

    /// Opens the selector for a vendor, filling its options,
    /// clearing the filter, and selecting the current effort if it
    /// is offered.
    pub fn show(&mut self, agent_type: AgentType, current: Option<ReasoningEffort>)
        requires
            old(self).wf(),
        ensures
            final(self).wf(),
            final(self).visible,
            final(self).agent_type == Some(agent_type),
            final(self).options@.len() == spec_reasoning_efforts(agent_type).len(),
    {
        self.visible = true;
        self.agent_type = Some(agent_type);
        self.options = Self::build_options(agent_type);
        self.list.reset();
        let mut identity: Vec<usize> = Vec::new();
        let mut i: usize = 0;
        let n = self.options.len();
        while i < n
            invariant
                i <= n,
                n == self.options@.len(),
                identity@.len() == i,
                forall|k: int| 0 <= k < i ==> (#[trigger] identity@[k]) == k,
            decreases n - i,
        {
            identity.push(i);
            i = i + 1;
        }
        self.list.set_filtered(identity);
        // Select the row carrying the current effort, if present.
        let mut pos: usize = 0;
        let mut found: bool = false;
        let mut j: usize = 0;
        while j < self.options.len()
            invariant
                j <= self.options@.len(),
                found ==> pos < self.options@.len(),
            decreases self.options@.len() - j,
        {
            if !found && reasoning_effort_eq(self.options[j].effort, current) {
                pos = j;
                found = true;
            }
            j = j + 1;
        }
        if found && pos < self.list.filtered.len() {
            self.list.select_position(pos);
        }
    }

    /// Hides the selector.
    pub fn dismiss(&mut self)
        requires
            old(self).wf(),
        ensures
            final(self).wf(),
            !final(self).visible,
    {
        self.visible = false;
    }

    /// Whether the selector is visible.
    pub fn is_visible(&self) -> (r: bool)
        ensures
            r == self.visible,
    {
        self.visible
    }

    /// The selected option, if any row is selected.
    pub fn selected_option(&self) -> (r: Option<&ReasoningOption>)
        requires
            self.wf(),
        ensures
            match r {
                Some(option) => self.list.selected < self.list.filtered@.len() && *option
                    == self.options@[self.list.filtered@[self.list.selected as int] as int],
                None => self.list.filtered@.len() == 0,
            },
    {
        if self.list.selected < self.list.filtered.len() {
            let idx = self.list.filtered[self.list.selected];
            proof {
                assert(idx < self.options@.len());
            }
            Some(&self.options[idx])
        } else {
            None
        }
    }

    /// Moves the selection one row down.
    pub fn select_next(&mut self)
        requires
            old(self).wf(),
        ensures
            final(self).wf(),
            final(self).options == old(self).options,
    {
        self.list.select_next();
    }

    /// Moves the selection one row up.
    pub fn select_previous(&mut self)
        requires
            old(self).wf(),
        ensures
            final(self).wf(),
            final(self).options == old(self).options,
    {
        self.list.select_prev();
    }

    /// Selects the entry on a visible row, if that row holds one.
    pub fn select_at_row(&mut self, row: usize) -> (r: bool)
        requires
            old(self).wf(),
        ensures
            final(self).wf(),
            final(self).options == old(self).options,
    {
        self.list.select_at_row(row)
    }

    /// Sets the number of visible rows (raised to one).
    pub fn set_max_visible(&mut self, max_visible: usize)
        requires
            old(self).wf(),
        ensures
            final(self).wf(),
            final(self).options == old(self).options,
            final(self).list.max_visible == if max_visible >= 1 {
                max_visible
            } else {
                1usize
            },
    {
        self.list.max_visible = if max_visible >= 1 {
            max_visible
        } else {
            1
        };
        if self.list.selected - self.list.scroll_offset >= self.list.max_visible {
            let n = self.list.filtered.len();
            proof {
                assert(self.list.selected < n);
            }
            self.list.scroll_offset = self.list.selected + 1 - self.list.max_visible;
        }
    }

    /// Recomputes the filter over the trimmed search text.
    fn refilter(&mut self)
        requires
            old(self).wf(),
        ensures
            final(self).wf(),
            final(self).options == old(self).options,
            final(self).visible == old(self).visible,
            final(self).agent_type == old(self).agent_type,
            forall|k: int|
                0 <= k < final(self).list.filtered@.len() ==> spec_option_matches(
                    old(self).options@[(#[trigger] final(self).list.filtered@[k]) as int],
                    strutil::spec_trim(old(self).list.search.chars@),
                ),
    {
        let query = strutil::trim_chars(&self.list.search.chars);
        let ghost q = strutil::spec_trim(self.list.search.chars@);
        let mut filtered: Vec<usize> = Vec::new();
        let mut i: usize = 0;
        while i < self.options.len()
            invariant
                i <= self.options@.len(),
                query@ == q,
                forall|k: int| 0 <= k < filtered@.len() ==> (#[trigger] filtered@[k]) < i,
                forall|k: int|
                    0 <= k < filtered@.len() ==> spec_option_matches(
                        self.options@[(#[trigger] filtered@[k]) as int],
                        q,
                    ),
            decreases self.options@.len() - i,
        {
            if option_matches(&self.options[i], &query) {
                filtered.push(i);
            }
            i = i + 1;
        }
        proof {
            assert(forall|k: int|
                0 <= k < filtered@.len() ==> (#[trigger] filtered@[k]) < self.options@.len());
        }
        self.list.set_filtered(filtered);
    }

    /// Inserts a character into the filter and refilters.
    pub fn insert_char(&mut self, c: char)
        requires
            old(self).wf(),
        ensures
            final(self).wf(),
            final(self).options == old(self).options,
    {
        self.list.search.insert_char(c);
        self.refilter();
    }

    /// Inserts each non-control character of a string and refilters.
    pub fn insert_str(&mut self, s: &str)
        requires
            old(self).wf(),
        ensures
            final(self).wf(),
            final(self).options == old(self).options,
    {
        let chars = strutil::str_chars(s);
        let mut i: usize = 0;
        while i < chars.len()
            invariant
                self.wf(),
                i <= chars@.len(),
                self.options == old(self).options,
            decreases chars@.len() - i,
        {
            if !strutil::is_control_char(chars[i]) {
                self.list.search.insert_char(chars[i]);
            }
            i = i + 1;
        }
        self.refilter();
    }

    /// Deletes the character before the filter cursor and refilters.
    pub fn delete_char(&mut self)
        requires
            old(self).wf(),
        ensures
            final(self).wf(),
            final(self).options == old(self).options,
    {
        self.list.search.delete_char();
        self.refilter();
    }

    /// Deletes the character at the filter cursor and refilters.
    pub fn delete_forward(&mut self)
        requires
            old(self).wf(),
        ensures
            final(self).wf(),
            final(self).options == old(self).options,
    {
        self.list.search.delete_forward();
        self.refilter();
    }

    /// Moves the filter cursor left.
    pub fn move_cursor_left(&mut self)
        requires
            old(self).wf(),
        ensures
            final(self).wf(),
            final(self).options == old(self).options,
    {
        self.list.search.move_left();
    }

    /// Moves the filter cursor right.
    pub fn move_cursor_right(&mut self)
        requires
            old(self).wf(),
        ensures
            final(self).wf(),
            final(self).options == old(self).options,
    {
        self.list.search.move_right();
    }

    /// Moves the filter cursor to the start.
    pub fn move_cursor_start(&mut self)
        requires
            old(self).wf(),
        ensures
            final(self).wf(),
            final(self).options == old(self).options,
    {
        self.list.search.move_start();
    }

    /// Moves the filter cursor to the end.
    pub fn move_cursor_end(&mut self)
        requires
            old(self).wf(),
        ensures
            final(self).wf(),
            final(self).options == old(self).options,
    {
        self.list.search.move_end();
    }
}

/// Equality of optional efforts.
fn reasoning_effort_eq(a: Option<ReasoningEffort>, b: Option<ReasoningEffort>) -> (r: bool)
    ensures
        r == (a == b),
{
    match (a, b) {
        (None, None) => true,
        (Some(x), Some(y)) => x == y,
        _ => false,
    }
}

/// Executable test for `spec_option_matches`.
fn option_matches(option: &ReasoningOption, query: &Vec<char>) -> (r: bool)
    ensures
        r == spec_option_matches(*option, query@),
{
    if query.len() == 0 {
        return true;
    }
    let label = strutil::str_chars(option.label);
    if strutil::contains_ci(&label, query) {
        return true;
    }
    let description = strutil::str_chars(option.description);
    strutil::contains_ci(&description, query)
}

/// The selector widget: rendering belongs to the caller, which
/// draws from a `ReasoningSelectorState`.
#[derive(Debug, Clone, Copy, PartialEq, Eq, Structural)]
pub struct ReasoningSelector;

impl ReasoningSelector {
    /// The widget.
    pub fn new() -> (r: ReasoningSelector) {
        ReasoningSelector
    }
}

} // verus!
