//! Context-window resolution: observed values win over the
//! catalog, the catalog over the vendor fallback, and aggregator
//! ids are inferred from the underlying provider.

use conduit_core::agent::AgentType;
use conduit_core::config::{Config, ToolAvailability};
use conduit_core::model_registry;
use conduit_core::services::{ConduitCore, ContextWindowService, ContextWindowSource};

fn build_core() -> ConduitCore {
    ConduitCore::new(Config::default(), ToolAvailability::default())
}

fn clear_observed(core: &mut ConduitCore, agent_type: AgentType, model_id: &str) {
    let key = ContextWindowService::key(agent_type, model_id);
    core.app_state.delete(key.as_str());
}

#[test]
fn test_resolve_codex_catalog_windows() {
    let mut core = build_core();
    clear_observed(&mut core, AgentType::Codex, "gpt-5.3-codex");
    clear_observed(&mut core, AgentType::Codex, "gpt-5.3-codex-spark");
    let codex = ContextWindowService::resolve(&core, AgentType::Codex, "gpt-5.3-codex");
    assert_eq!(codex.tokens, model_registry::CODEX_GPT53_CONTEXT_WINDOW);
    assert_eq!(codex.source, ContextWindowSource::ModelCatalog);

    let spark = ContextWindowService::resolve(&core, AgentType::Codex, "gpt-5.3-codex-spark");
    assert_eq!(spark.tokens, model_registry::CODEX_GPT53_SPARK_CONTEXT_WINDOW);
    assert_eq!(spark.source, ContextWindowSource::ModelCatalog);
}

#[test]
fn test_record_observed_overrides_catalog() {
    let mut core = build_core();
    clear_observed(&mut core, AgentType::Codex, "gpt-5.3-codex-spark");
    ContextWindowService::record_observed(
        &mut core,
        AgentType::Codex,
        "gpt-5.3-codex-spark",
        64_000,
    );

    let resolved = ContextWindowService::resolve(&core, AgentType::Codex, "gpt-5.3-codex-spark");
    assert_eq!(resolved.tokens, 64_000);
    assert_eq!(resolved.source, ContextWindowSource::ObservedRuntime);
}

#[test]
fn test_resolve_opencode_infers_underlying_provider_window() {
    let mut core = build_core();
    clear_observed(&mut core, AgentType::Opencode, "openai/gpt-5.3-codex-spark");
    let resolved =
        ContextWindowService::resolve(&core, AgentType::Opencode, "openai/gpt-5.3-codex-spark");
    assert_eq!(resolved.tokens, model_registry::CODEX_GPT53_SPARK_CONTEXT_WINDOW);
    assert_eq!(resolved.source, ContextWindowSource::ModelCatalog);
}

#[test]
fn test_resolve_nova_aggregator_window() {
    let core = build_core();
    let plain =
        ContextWindowService::resolve(&core, AgentType::Opencode, "nova/nova-large-4");
    assert_eq!(plain.tokens, model_registry::NOVA_CONTEXT_WINDOW);
    assert_eq!(plain.source, ContextWindowSource::ModelCatalog);

    let long =
        ContextWindowService::resolve(&core, AgentType::Opencode, "nova/nova-large-1m");
    assert_eq!(long.tokens, model_registry::NOVA_1M_CONTEXT_WINDOW);
    assert_eq!(long.source, ContextWindowSource::ModelCatalog);
}

#[test]
fn test_resolve_falls_back_to_vendor_default() {
    let core = build_core();
    let unknown = ContextWindowService::resolve(&core, AgentType::Nova, "no-such-model");
    assert_eq!(unknown.tokens, model_registry::NOVA_CONTEXT_WINDOW);
    assert_eq!(unknown.source, ContextWindowSource::FallbackDefault);

    let aggregator = ContextWindowService::resolve(&core, AgentType::Opencode, "other/model");
    assert_eq!(aggregator.source, ContextWindowSource::FallbackDefault);
}

#[test]
fn test_record_observed_ignores_non_positive() {
    let mut core = build_core();
    ContextWindowService::record_observed(&mut core, AgentType::Nova, "nova-large-4", 0);
    let resolved = ContextWindowService::resolve(&core, AgentType::Nova, "nova-large-4");
    assert_eq!(resolved.source, ContextWindowSource::ModelCatalog);
    assert_eq!(resolved.tokens, model_registry::NOVA_CONTEXT_WINDOW);
}
