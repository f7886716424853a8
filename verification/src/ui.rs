//! Terminal-UI state machines.
//!
//! Rendering belongs to the caller; everything here is the state
//! the widgets draw from and the transitions the key handlers
//! perform on it.

pub mod dialog;
pub mod file_kind;
pub mod inline_prompt;
pub mod footer;
pub mod missing_tool;
pub mod multi_select;
pub mod provider_selector;
pub mod reasoning_selector;
pub mod spinner;
pub mod searchable_list;
pub mod tab_bar;
pub mod text_input;
pub mod text_width;
