//! Data-transfer shapes for the model catalog, as the web API
//! serves them.

use vstd::prelude::*;
use crate::agent::AgentType;
use crate::model_registry::ModelInfo;
use crate::strutil;

verus! {

/// One model, with its vendor and context window.
#[derive(Debug, Clone, PartialEq, Eq)]
pub struct ModelInfoDto {
    pub id: String,
    pub display_name: String,
    pub description: String,
    pub is_default: bool,
    pub agent_type: String,
    pub context_window: i64,
}

/// One vendor's models under a section heading.
#[derive(Debug, Clone, PartialEq, Eq)]
pub struct ModelGroupDto {
    pub agent_type: String,
    pub section_title: String,
    pub icon: String,
    pub models: Vec<ModelInfoDto>,
}

/// The whole catalog, grouped by vendor.
#[derive(Debug, Clone, PartialEq, Eq)]
pub struct ListModelsDto {
    pub groups: Vec<ModelGroupDto>,
}

impl ModelInfoDto {
    /// The transfer shape of one catalog entry.
    pub fn from_model(agent: AgentType, model: &ModelInfo) -> (r: ModelInfoDto)
        ensures
            r.id@ == model.id@,
            r.display_name@ == model.display_name@,
            r.agent_type@ == crate::agent::spec_agent_type_str(agent),
            r.context_window == model.context_window,
            r.is_default == model.is_default,
    {
        let mut id = String::new();
        strutil::append_str(&mut id, model.id);
        let mut display_name = String::new();
        strutil::append_str(&mut display_name, model.display_name);
        let mut agent_type = String::new();
        strutil::append_str(&mut agent_type, agent.as_str());
        proof {
            assert(id@ =~= model.id@);
            assert(display_name@ =~= model.display_name@);
            assert(agent_type@ =~= crate::agent::spec_agent_type_str(agent));
        }
        ModelInfoDto {
            id,
            display_name,
            description: String::new(),
            is_default: model.is_default,
            agent_type,
            context_window: model.context_window,
        }
    }
}

} // verus!
