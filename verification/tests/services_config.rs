//! The configuration service and the string utilities under it.

use conduit_core::agent::AgentType;
use conduit_core::config::{Config, ToolAvailability};
use conduit_core::errors::{ServiceError, SessionError};
use conduit_core::model_registry::ModelRegistry;
use conduit_core::services::{ConduitCore, ConfigService};
use conduit_core::strutil;

fn tools_with_nova() -> ToolAvailability {
    ToolAvailability { nova: true, codex: false, gemini: false, opencode: false, git: true, gh: false }
}

#[test]
fn test_default_model_prefers_enabled_default_agent() {
    let core = ConduitCore::new(Config::default(), tools_with_nova());
    let (agent, model) = ConfigService::default_model(&core);
    assert_eq!(agent, AgentType::Nova);
    assert_eq!(model, "nova-large-4");
}

#[test]
fn test_default_model_falls_back_to_first_enabled() {
    let mut config = Config::default();
    config.default_agent = AgentType::Codex;
    let core = ConduitCore::new(config, tools_with_nova());
    let (agent, _model) = ConfigService::default_model(&core);
    assert_eq!(agent, AgentType::Nova);
}

#[test]
fn test_set_default_model_validates_provider_and_model() {
    let mut core = ConduitCore::new(Config::default(), tools_with_nova());
    // A provider without an installed tool is refused.
    let err = ConfigService::set_default_model(&mut core, AgentType::Codex, "gpt-5.3-codex")
        .unwrap_err();
    assert!(matches!(err, ServiceError::InvalidInput(_)));
    // A model the vendor's catalog does not list is refused.
    let err = ConfigService::set_default_model(&mut core, AgentType::Nova, "no-such-model")
        .unwrap_err();
    assert!(matches!(err, ServiceError::InvalidInput(_)));
    // A valid pair is stored.
    ConfigService::set_default_model(&mut core, AgentType::Nova, "nova-max-4")
        .expect("stored");
    assert_eq!(core.config.default_model_for(AgentType::Nova), "nova-max-4");
}

#[test]
fn test_set_enabled_providers_validations() {
    let mut core = ConduitCore::new(Config::default(), tools_with_nova());
    let err = ConfigService::set_enabled_providers(&mut core, vec![]).unwrap_err();
    assert!(matches!(err, ServiceError::InvalidInput(_)));
    let err = ConfigService::set_enabled_providers(&mut core, vec![AgentType::Codex]).unwrap_err();
    assert!(matches!(err, ServiceError::InvalidInput(_)));
    ConfigService::set_enabled_providers(&mut core, vec![AgentType::Nova, AgentType::Codex])
        .expect("stored");
    assert_eq!(
        core.config.enabled_providers,
        Some(vec![AgentType::Nova, AgentType::Codex])
    );
}

#[test]
fn test_find_model_and_defaults() {
    let hit = ModelRegistry::find_model(AgentType::Codex, "gpt-5.3-codex").expect("hit");
    assert_eq!(hit.context_window, conduit_core::model_registry::CODEX_GPT53_CONTEXT_WINDOW);
    assert!(ModelRegistry::find_model(AgentType::Codex, "gpt-oss").is_none());
    assert!(ModelRegistry::find_model(AgentType::Opencode, "anything").is_none());
    assert_eq!(ModelRegistry::default_model_id(AgentType::Gemini), "gemini-2.5-pro");
}

#[test]
fn test_agent_type_labels_and_parse() {
    for agent in [AgentType::Nova, AgentType::Codex, AgentType::Gemini, AgentType::Opencode] {
        assert_eq!(AgentType::parse(agent.as_str()), agent);
    }
    assert_eq!(AgentType::parse("unknown"), AgentType::Nova);
    assert_eq!(AgentType::Nova.display_name(), "Nova CLI");
    assert!(AgentType::Nova.supports_control_protocol());
    assert!(!AgentType::Codex.supports_control_protocol());
}

#[test]
fn test_parse_i64_accepts_and_rejects() {
    let parse = |s: &str| {
        let chars = strutil::str_chars(s);
        strutil::parse_i64_chars(&chars)
    };
    assert_eq!(parse("0"), Some(0));
    assert_eq!(parse("272000"), Some(272000));
    assert_eq!(parse("-42"), Some(-42));
    assert_eq!(parse("+7"), Some(7));
    assert_eq!(parse("9223372036854775807"), Some(i64::MAX));
    assert_eq!(parse("-9223372036854775808"), Some(i64::MIN));
    assert_eq!(parse("9223372036854775808"), None);
    assert_eq!(parse("-9223372036854775809"), None);
    assert_eq!(parse(""), None);
    assert_eq!(parse("-"), None);
    assert_eq!(parse("12a"), None);
    assert_eq!(parse(" 12"), None);
}

#[test]
fn test_u64_to_string_round_trips() {
    for n in [0u64, 1, 9, 10, 64_000, 272_000, u64::MAX] {
        let s = strutil::u64_to_string(n);
        assert_eq!(s, n.to_string());
    }
}

#[test]
fn test_trim_and_contains() {
    let chars = strutil::str_chars("  hello world \t");
    let trimmed = strutil::trim_chars(&chars);
    assert_eq!(trimmed.iter().collect::<String>(), "hello world");

    let hay = strutil::str_chars("The Quick Fox");
    let needle = strutil::str_chars("quick");
    assert!(strutil::contains_ci(&hay, &needle));
    let exact = strutil::str_chars("Quick");
    assert!(strutil::contains_chars(&hay, &exact));
    let missing = strutil::str_chars("slow");
    assert!(!strutil::contains_ci(&hay, &missing));
}

#[test]
fn test_split_once_char() {
    let chars = strutil::str_chars("openai/gpt-5.2");
    let (before, after) = strutil::split_once_char(&chars, '/').expect("split");
    assert_eq!(before.iter().collect::<String>(), "openai");
    assert_eq!(after.iter().collect::<String>(), "gpt-5.2");
    let none = strutil::str_chars("no-slash");
    assert!(strutil::split_once_char(&none, '/').is_none());
}

#[test]
fn test_store_get_set_delete() {
    let mut core = ConduitCore::new(Config::default(), ToolAvailability::default());
    assert!(core.app_state.get("k").is_none());
    core.app_state.set("k", "v1".to_string());
    assert_eq!(core.app_state.get("k").as_deref(), Some("v1"));
    core.app_state.set("k", "v2".to_string());
    assert_eq!(core.app_state.get("k").as_deref(), Some("v2"));
    core.app_state.set("other", "x".to_string());
    core.app_state.delete("k");
    assert!(core.app_state.get("k").is_none());
    assert_eq!(core.app_state.get("other").as_deref(), Some("x"));
}

#[test]
fn test_error_labels() {
    assert_eq!(SessionError::NotFound.label(), "session not found");
    assert_eq!(SessionError::AlreadyRunning.label(), "session is already running");
    assert_eq!(SessionError::Unavailable.label(), "agent tool is not available");
    assert_eq!(SessionError::SpawnFailure.label(), "failed to start agent");
    assert_eq!(SessionError::Internal("x".to_string()).label(), "internal error");
    let service = ServiceError::NotFound("missing".to_string());
    assert_eq!(service.message(), "missing");
}
