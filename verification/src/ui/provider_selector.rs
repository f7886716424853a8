//! The provider selector dialog, built on the multi-select dialog.

use vstd::prelude::*;
use crate::agent::AgentType;
use crate::config::{all_providers, tool_for_agent, Config, ToolAvailability, spec_provider_enabled};
use crate::strutil;
use crate::ui::multi_select::{MultiSelectDialogState, MultiSelectItem, spec_checked_ids};

verus! {

/// The selector's state: a multi-select dialog over the providers.
#[derive(Debug, Clone, PartialEq, Eq)]
pub struct ProviderSelectorState {
    pub dialog: MultiSelectDialogState,
}

impl ProviderSelectorState {
    /// The inner dialog is well-formed.
    pub open spec fn wf(self) -> bool {
        self.dialog.wf()
    }

    /// A fresh, empty selector.
    pub fn new() -> (r: ProviderSelectorState)
        ensures
            r.wf(),
            !r.dialog.visible,
    {
        ProviderSelectorState { dialog: MultiSelectDialogState::new(10) }
    }

    /// Builds the selector for the current configuration: one item
    /// per vendor, disabled when its tool is not installed, checked
    /// when installed and configured as enabled (or when no
    /// explicit provider list exists).
    pub fn configure_for(config: &Config, tools: &ToolAvailability) -> (r: ProviderSelectorState)
        ensures
            r.wf(),
            !r.dialog.visible,
            r.dialog.items@.len() == 4,
            forall|k: int|
                0 <= k < 4 ==> (#[trigger] r.dialog.items@[k]).checked == spec_provider_enabled(
                    *config,
                    seq![
                        AgentType::Nova,
                        AgentType::Codex,
                        AgentType::Gemini,
                        AgentType::Opencode,
                    ][k],
                    *tools,
                ),
            forall|k: int|
                0 <= k < 4 ==> (#[trigger] r.dialog.items@[k]).disabled
                    == !crate::config::spec_is_available(
                    *tools,
                    crate::config::spec_tool_for_agent(
                        seq![
                            AgentType::Nova,
                            AgentType::Codex,
                            AgentType::Gemini,
                            AgentType::Opencode,
                        ][k],
                    ),
                ),
            forall|k: int|
                0 <= k < 4 ==> (#[trigger] r.dialog.items@[k]).id@
                    == crate::agent::spec_agent_type_str(
                    seq![
                        AgentType::Nova,
                        AgentType::Codex,
                        AgentType::Gemini,
                        AgentType::Opencode,
                    ][k],
                ),
    {
        let providers = all_providers();
        let mut items: Vec<MultiSelectItem> = Vec::new();
        let mut i: usize = 0;
        while i < providers.len()
            invariant
                i <= providers@.len(),
                providers@ == seq![
                    AgentType::Nova,
                    AgentType::Codex,
                    AgentType::Gemini,
                    AgentType::Opencode,
                ],
                items@.len() == i,
                forall|k: int|
                    0 <= k < i ==> (#[trigger] items@[k]).checked == spec_provider_enabled(
                        *config,
                        providers@[k],
                        *tools,
                    ),
                forall|k: int|
                    0 <= k < i ==> (#[trigger] items@[k]).disabled
                        == !crate::config::spec_is_available(
                        *tools,
                        crate::config::spec_tool_for_agent(providers@[k]),
                    ),
                forall|k: int|
                    0 <= k < i ==> (#[trigger] items@[k]).id@ == crate::agent::spec_agent_type_str(
                        providers@[k],
                    ),
            decreases providers@.len() - i,
        {
            let provider = providers[i];
            let installed = tools.is_available(tool_for_agent(provider));
            let checked = config.is_provider_enabled_effective(provider, tools);
            let mut id = String::new();
            strutil::append_str(&mut id, provider.as_str());
            let mut title = String::new();
            strutil::append_str(&mut title, provider.display_name());
            let mut description = String::new();
            strutil::append_str(&mut description, provider.display_name());
            strutil::append_str(&mut description, " provider");
            proof {
                assert(id@ =~= crate::agent::spec_agent_type_str(provider));
            }
            items.push(MultiSelectItem { id, title, description, checked, disabled: !installed });
            i = i + 1;
        }
        let mut state = Self::new();
        let mut dialog_title = String::new();
        strutil::append_str(&mut dialog_title, "Select Providers");
        let mut subtitle = String::new();
        strutil::append_str(
            &mut subtitle,
            "Choose which installed providers to include in model selection.",
        );
        state.dialog.configure(dialog_title, Some(subtitle), items);
        state
    }

    /// Shows the dialog.
    pub fn show(&mut self)
        requires
            old(self).wf(),
        ensures
            final(self).wf(),
            final(self).dialog.visible,
    {
        self.dialog.show();
    }

    /// Hides the dialog.
    pub fn dismiss(&mut self)
        requires
            old(self).wf(),
        ensures
            final(self).wf(),
            !final(self).dialog.visible,
    {
        self.dialog.dismiss();
    }

    /// Whether the dialog is visible.
    pub fn is_visible(&self) -> (r: bool)
        ensures
            r == self.dialog.visible,
    {
        self.dialog.is_visible()
    }

    /// Inserts a character into the filter.
    pub fn insert_char(&mut self, c: char)
        requires
            old(self).wf(),
        ensures
            final(self).wf(),
    {
        self.dialog.insert_char(c);
    }

    /// Inserts each non-control character of a string.
    pub fn insert_str(&mut self, s: &str)
        requires
            old(self).wf(),
        ensures
            final(self).wf(),
    {
        self.dialog.insert_str(s);
    }

    /// Deletes the character before the filter cursor.
    pub fn delete_char(&mut self)
        requires
            old(self).wf(),
        ensures
            final(self).wf(),
    {
        self.dialog.delete_char();
    }

    /// Deletes the character at the filter cursor.
    pub fn delete_forward(&mut self)
        requires
            old(self).wf(),
        ensures
            final(self).wf(),
    {
        self.dialog.delete_forward();
    }

    /// Moves the filter cursor left.
    pub fn move_cursor_left(&mut self)
        requires
            old(self).wf(),
        ensures
            final(self).wf(),
    {
        self.dialog.move_cursor_left();
    }

    /// Moves the filter cursor right.
    pub fn move_cursor_right(&mut self)
        requires
            old(self).wf(),
        ensures
            final(self).wf(),
    {
        self.dialog.move_cursor_right();
    }

    /// Moves the filter cursor to the start.
    pub fn move_cursor_start(&mut self)
        requires
            old(self).wf(),
        ensures
            final(self).wf(),
    {
        self.dialog.move_cursor_start();
    }

    /// Moves the filter cursor to the end.
    pub fn move_cursor_end(&mut self)
        requires
            old(self).wf(),
        ensures
            final(self).wf(),
    {
        self.dialog.move_cursor_end();
    }

    /// Moves the selection one row down.
    pub fn select_next(&mut self)
        requires
            old(self).wf(),
        ensures
            final(self).wf(),
    {
        self.dialog.select_next();
    }

    /// Moves the selection one row up.
    pub fn select_previous(&mut self)
        requires
            old(self).wf(),
        ensures
            final(self).wf(),
    {
        self.dialog.select_previous();
    }

    /// Selects the entry on a visible row, if that row holds one.
    pub fn select_at_row(&mut self, row: usize) -> (r: bool)
        requires
            old(self).wf(),
        ensures
            final(self).wf(),
    {
        self.dialog.select_at_row(row)
    }

    /// Toggles the selected provider's checkbox.
    pub fn toggle_selected(&mut self) -> (r: bool)
        requires
            old(self).wf(),
        ensures
            final(self).wf(),
    {
        self.dialog.toggle_selected()
    }

    /// The ids of the checked providers, in item order.
    pub fn selected_provider_ids(&self) -> (r: Vec<String>)
        ensures
            r@.map_values(|s: String| s@) == spec_checked_ids(self.dialog.items@),
    {
        self.dialog.selected_ids()
    }

    /// The checked providers, parsed back into vendors.
    pub fn selected_providers(&self) -> (r: Vec<AgentType>)
        ensures
            r@.len() == spec_checked_ids(self.dialog.items@).len(),
            forall|k: int|
                0 <= k < r@.len() ==> #[trigger] r@[k] == crate::agent::spec_parse_agent_type(
                    spec_checked_ids(self.dialog.items@)[k],
                ),
    {
        let ids = self.selected_provider_ids();
        let mut out: Vec<AgentType> = Vec::new();
        let mut i: usize = 0;
        while i < ids.len()
            invariant
                i <= ids@.len(),
                ids@.map_values(|s: String| s@) == spec_checked_ids(self.dialog.items@),
                out@.len() == i,
                forall|k: int|
                    0 <= k < i ==> #[trigger] out@[k] == crate::agent::spec_parse_agent_type(
                        spec_checked_ids(self.dialog.items@)[k],
                    ),
            decreases ids@.len() - i,
        {
            proof {
                assert(ids@.map_values(|s: String| s@)[i as int] == ids@[i as int]@);
            }
            out.push(AgentType::parse(ids[i].as_str()));
            i = i + 1;
        }
        out
    }

    /// Validates that at least one provider is checked, recording a
    /// validation error otherwise.
    pub fn validate_non_empty(&mut self) -> (r: bool)
        requires
            old(self).wf(),
        ensures
            final(self).wf(),
            final(self).dialog.items == old(self).dialog.items,
            r == (spec_checked_ids(old(self).dialog.items@).len() > 0),
            r ==> final(self).dialog.validation_error is None,
            !r ==> final(self).dialog.validation_error is Some,
    {
        let selected = self.selected_providers();
        proof {
            assert(selected@.len() == spec_checked_ids(self.dialog.items@).len());
        }
        if selected.len() == 0 {
            let mut message = String::new();
            strutil::append_str(&mut message, "Select at least one provider.");
            self.dialog.validation_error = Some(message);
            return false;
        }
        self.dialog.validation_error = None;
        true
    }
}

} // verus!
