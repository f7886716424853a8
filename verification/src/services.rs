//! Application services: the composition root's core handle, the
//! keyed state store model, and the configuration and
//! context-window services.
//!
//! The persistence store is an external collaborator exposing keyed
//! get/set/delete; its in-memory model here carries exactly that
//! contract, and the services' decisions are verified against it.
//! Writing configuration back to disk is the caller's concern.

use vstd::prelude::*;
use crate::agent::AgentType;
use crate::config::{Config, ToolAvailability, tool_for_agent};
use crate::errors::ServiceError;
use crate::model_registry::{ModelRegistry, spec_default_context_window, spec_models};
use crate::strutil;

verus! {

/// The first value stored under a key, if any.
pub open spec fn spec_store_lookup(s: Seq<(String, String)>, k: Seq<char>) -> Option<Seq<char>>
    decreases s.len(),
{
    if s.len() == 0 {
        None
    } else if s[0].0@ == k {
        Some(s[0].1@)
    } else {
        spec_store_lookup(s.drop_first(), k)
    }
}

/// An in-memory keyed store with the collaborator's contract:
/// get, set, delete by string key.
#[derive(Debug)]
pub struct KeyValueStore {
    pub entries: Vec<(String, String)>,
}

impl KeyValueStore {
    /// Keys are unique.
    pub open spec fn wf(self) -> bool {
        forall|i: int, j: int|
            0 <= i < j < self.entries@.len() ==> (#[trigger] self.entries@[i]).0@ != (
            #[trigger] self.entries@[j]).0@
    }

    /// The value stored under `k`, if any.
    pub open spec fn spec_get(self, k: Seq<char>) -> Option<Seq<char>> {
        spec_store_lookup(self.entries@, k)
    }

    /// An empty store.
    pub fn new() -> (r: KeyValueStore)
        ensures
            r.wf(),
            r.entries@.len() == 0,
    {
        KeyValueStore { entries: Vec::new() }
    }

    /// The index of the entry under `k`, if any.
    fn find_index(&self, k: &str) -> (r: Option<usize>)
        ensures
            match r {
                Some(i) => i < self.entries@.len() && self.entries@[i as int].0@ == k@
                    && self.spec_get(k@) == Some(self.entries@[i as int].1@) && (forall|j: int|
                    0 <= j < i ==> (#[trigger] self.entries@[j]).0@ != k@),
                None => self.spec_get(k@) is None,
            },
    {
        let mut i: usize = 0;
        proof {
            assert(self.entries@.skip(0) =~= self.entries@);
        }
        while i < self.entries.len()
            invariant
                i <= self.entries@.len(),
                forall|j: int| 0 <= j < i ==> (#[trigger] self.entries@[j]).0@ != k@,
                spec_store_lookup(self.entries@.skip(i as int), k@) == spec_store_lookup(
                    self.entries@,
                    k@,
                ),
            decreases self.entries@.len() - i,
        {
            if strutil::str_eq(self.entries[i].0.as_str(), k) {
                proof {
                    let tail = self.entries@.skip(i as int);
                    assert(tail[0] == self.entries@[i as int]);
                }
                return Some(i);
            }
            i = i + 1;
            proof {
                let prev = self.entries@.skip(i - 1);
                assert(prev[0] == self.entries@[i - 1]);
                assert(prev.drop_first() =~= self.entries@.skip(i as int));
            }
        }
        proof {
            assert(self.entries@.skip(i as int) =~= Seq::<(String, String)>::empty());
        }
        None
    }

    /// Reads the value stored under `k`.
    pub fn get(&self, k: &str) -> (r: Option<String>)
        requires
            self.wf(),
        ensures
            match r {
                Some(v) => self.spec_get(k@) == Some(v@),
                None => self.spec_get(k@) is None,
            },
    {
        match self.find_index(k) {
            Some(i) => Some(self.entries[i].1.clone()),
            None => None,
        }
    }

    /// Stores `v` under `k`, replacing any prior value.
    pub fn set(&mut self, k: &str, v: String)
        requires
            old(self).wf(),
        ensures
            final(self).wf(),
            final(self).spec_get(k@) == Some(v@),
            forall|k2: Seq<char>| k2 != k@ ==> final(self).spec_get(k2) == old(self).spec_get(k2),
    {
        let key = string_of(k);
        let entry = (key, v);
        let ghost gx = entry;
        match self.find_index(k) {
            Some(i) => {
                proof {
                    lemma_store_update_all(self.entries@, i as int, gx);
                    lemma_store_wf_update_same_key(self.entries@, i as int, gx);
                }
                self.entries.set(i, entry);
            },
            None => {
                proof {
                    lemma_store_push_all(self.entries@, gx);
                    lemma_store_none(self.entries@, k@);
                    assert forall|a: int, b: int|
                        0 <= a < b < self.entries@.push(gx).len() implies (
                    #[trigger] self.entries@.push(gx)[a]).0@ != (
                    #[trigger] self.entries@.push(gx)[b]).0@ by {
                        if b < self.entries@.len() {
                            assert(self.entries@.push(gx)[a] == self.entries@[a]);
                            assert(self.entries@.push(gx)[b] == self.entries@[b]);
                        } else {
                            assert(self.entries@.push(gx)[a] == self.entries@[a]);
                            assert(self.entries@.push(gx)[b] == gx);
                        }
                    }
                }
                self.entries.push(entry);
            },
        }
    }

    /// Removes the value stored under `k`, if any.
    pub fn delete(&mut self, k: &str)
        requires
            old(self).wf(),
        ensures
            final(self).wf(),
            final(self).spec_get(k@) is None,
            forall|k2: Seq<char>| k2 != k@ ==> final(self).spec_get(k2) == old(self).spec_get(k2),
    {
        match self.find_index(k) {
            Some(i) => {
                proof {
                    lemma_store_remove(self.entries@, i as int, k@);
                }
                let _ = self.entries.remove(i);
                proof {
                    assert forall|a: int, b: int|
                        0 <= a < b < self.entries@.len() implies (
                    #[trigger] self.entries@[a]).0@ != (#[trigger] self.entries@[b]).0@ by {
                        if a < i {
                            assert(self.entries@[a] == old(self).entries@[a]);
                        } else {
                            assert(self.entries@[a] == old(self).entries@[a + 1]);
                        }
                        if b < i {
                            assert(self.entries@[b] == old(self).entries@[b]);
                        } else {
                            assert(self.entries@[b] == old(self).entries@[b + 1]);
                        }
                    }
                }
            },
            None => {},
        }
    }
}

/// The application's core handle: configuration, tool availability,
/// and the keyed application-state store.
#[derive(Debug)]
pub struct ConduitCore {
    pub config: Config,
    pub tools: ToolAvailability,
    pub app_state: KeyValueStore,
}

impl ConduitCore {
    /// A core with the given configuration and tool availability and
    /// an empty state store.
    pub fn new(config: Config, tools: ToolAvailability) -> (r: ConduitCore)
        ensures
            r.config == config,
            r.tools == tools,
            r.app_state.wf(),
            r.app_state.entries@.len() == 0,
    {
        ConduitCore { config, tools, app_state: KeyValueStore::new() }
    }

    /// Read access to the configuration.
    pub fn config(&self) -> (r: &Config)
        ensures
            r == &self.config,
    {
        &self.config
    }

    /// Write access to the configuration.
    pub fn config_mut(&mut self) -> (r: &mut Config)
        ensures
            *r == old(self).config,
            final(self).config == *final(r),
            final(self).tools == old(self).tools,
            final(self).app_state == old(self).app_state,
    {
        &mut self.config
    }

    /// The recorded tool availability.
    pub fn tools(&self) -> (r: &ToolAvailability)
        ensures
            r == &self.tools,
    {
        &self.tools
    }
}

/// Where a resolved context window came from, in order of
/// preference.
#[derive(Debug, Clone, Copy, PartialEq, Eq, Structural)]
pub enum ContextWindowSource {
    /// Observed at runtime and persisted.
    ObservedRuntime,
    /// From the static model catalog (or inferred from the
    /// underlying provider's catalog).
    ModelCatalog,
    /// The vendor-wide fallback.
    FallbackDefault,
}

/// A resolved context window and where it came from.
#[derive(Debug, Clone, Copy, PartialEq, Eq, Structural)]
pub struct ResolvedContextWindow {
    pub tokens: i64,
    pub source: ContextWindowSource,
}

/// Resolves and records model context windows: a runtime-observed
/// value wins over the catalog, which wins over the vendor
/// fallback.
pub struct ContextWindowService;

/// The store key for an observed context window: the fixed prefix,
/// the vendor, and the model id, joined by `::`.
pub open spec fn spec_window_key(agent: AgentType, model_id: Seq<char>) -> Seq<char> {
    "model_context_window"@ + "::"@ + crate::agent::spec_agent_type_str(agent) + "::"@ + model_id
}

/// The observed context window recorded for a model, if the store
/// holds a positive decimal value under its key.
pub open spec fn spec_observed_window(core: ConduitCore, agent: AgentType, model_id: Seq<char>) -> Option<
    int,
> {
    match core.app_state.spec_get(spec_window_key(agent, model_id)) {
        Some(raw) => match strutil::spec_parse_i64(raw) {
            Some(v) => if v > 0 {
                Some(v)
            } else {
                None
            },
            None => None,
        },
        None => None,
    }
}

/// The context window the catalog gives a model: for the
/// aggregator vendor, inferred from the underlying provider first;
/// otherwise the vendor's own catalog entry.
pub open spec fn spec_catalog_window(agent: AgentType, model_id: Seq<char>) -> Option<int> {
    if agent == AgentType::Opencode && spec_infer_opencode_window(model_id) is Some {
        spec_infer_opencode_window(model_id)
    } else {
        match crate::model_registry::spec_find_model(spec_models(agent), model_id) {
            Some(m) => Some(m.context_window as int),
            None => None,
        }
    }
}

/// The inferred window for an aggregator model id of the form
/// `provider/model`.
pub open spec fn spec_infer_opencode_window(model_id: Seq<char>) -> Option<int> {
    match spec_split_slash(model_id) {
        Some((provider, underlying)) => if provider == "openai"@ {
            spec_openai_window(underlying)
        } else if provider == "nova"@ {
            if strutil::spec_contains(underlying, "1m"@) {
                Some(crate::model_registry::NOVA_1M_CONTEXT_WINDOW as int)
            } else {
                Some(crate::model_registry::NOVA_CONTEXT_WINDOW as int)
            }
        } else if provider == "google"@ {
            Some(crate::model_registry::GEMINI_CONTEXT_WINDOW as int)
        } else {
            None
        },
        None => None,
    }
}

/// The split of a model id at its first slash, if it has one.
pub open spec fn spec_split_slash(s: Seq<char>) -> Option<(Seq<char>, Seq<char>)> {
    if exists|i: int| 0 <= i < s.len() && s[i] == '/' {
        let i = choose|i: int|
            0 <= i < s.len() && s[i] == '/' && (forall|j: int| 0 <= j < i ==> s[j] != '/');
        Some((s.take(i), s.skip(i + 1)))
    } else {
        None
    }
}

/// The window of the known underlying OpenAI model lines.
pub open spec fn spec_openai_window(model_id: Seq<char>) -> Option<int> {
    if model_id == "gpt-5.3-codex"@ {
        Some(crate::model_registry::CODEX_GPT53_CONTEXT_WINDOW as int)
    } else if model_id == "gpt-5.3-codex-spark"@ {
        Some(crate::model_registry::CODEX_GPT53_SPARK_CONTEXT_WINDOW as int)
    } else if model_id == "gpt-5.2-codex"@ || model_id == "gpt-5.1-codex-max"@ || model_id
        == "gpt-5.2"@ || model_id == "gpt-5.1-codex-mini"@ {
        Some(crate::model_registry::CODEX_CONTEXT_WINDOW as int)
    } else {
        None
    }
}

impl ContextWindowService {
    /// The store key under which a model's observed window lives.
    pub fn key(agent: AgentType, model_id: &str) -> (r: String)
        ensures
            r@ == spec_window_key(agent, model_id@),
    {
        let mut s = String::new();
        strutil::append_str(&mut s, "model_context_window");
        strutil::append_str(&mut s, "::");
        strutil::append_str(&mut s, agent.as_str());
        strutil::append_str(&mut s, "::");
        strutil::append_str(&mut s, model_id);
        proof {
            assert(s@ =~= spec_window_key(agent, model_id@));
        }
        s
    }

    /// Resolves a model's context window: the runtime-observed value
    /// if one is recorded, else the catalog's (inferred for the
    /// aggregator vendor), else the vendor fallback — each tagged
    /// with its source.
    pub fn resolve(core: &ConduitCore, agent: AgentType, model_id: &str) -> (r:
        ResolvedContextWindow)
        requires
            core.app_state.wf(),
        ensures
            match spec_observed_window(*core, agent, model_id@) {
                Some(v) => r.tokens == v && r.source == ContextWindowSource::ObservedRuntime,
                None => match spec_catalog_window(agent, model_id@) {
                    Some(v) => r.tokens == v && r.source == ContextWindowSource::ModelCatalog,
                    None => r.tokens == spec_default_context_window(agent) && r.source
                        == ContextWindowSource::FallbackDefault,
                },
            },
    {
        match Self::get_observed(core, agent, model_id) {
            Some(observed) => ResolvedContextWindow {
                tokens: observed,
                source: ContextWindowSource::ObservedRuntime,
            },
            None => {
                match Self::provider_context_window(agent, model_id) {
                    Some(window) => ResolvedContextWindow {
                        tokens: window,
                        source: ContextWindowSource::ModelCatalog,
                    },
                    None => ResolvedContextWindow {
                        tokens: ModelRegistry::default_context_window(agent),
                        source: ContextWindowSource::FallbackDefault,
                    },
                }
            },
        }
    }

    /// Persists a runtime-observed context window for a model; a
    /// non-positive observation is ignored.
    pub fn record_observed(core: &mut ConduitCore, agent: AgentType, model_id: &str, context_window: i64)
        requires
            old(core).app_state.wf(),
        ensures
            final(core).app_state.wf(),
            final(core).config == old(core).config,
            final(core).tools == old(core).tools,
            context_window <= 0 ==> final(core).app_state == old(core).app_state,
            context_window > 0 ==> spec_observed_window(*final(core), agent, model_id@) == Some(
                context_window as int,
            ),
    {
        if context_window <= 0 {
            return;
        }
        let key = Self::key(agent, model_id);
        let value = render_i64_positive(context_window);
        let ghost gv = value@;
        core.app_state.set(key.as_str(), value);
        proof {
            assert(strutil::spec_parse_i64(gv) == Some(context_window as int));
        }
    }

    /// The observed window recorded for a model, if the store holds
    /// a positive decimal value.
    fn get_observed(core: &ConduitCore, agent: AgentType, model_id: &str) -> (r: Option<i64>)
        requires
            core.app_state.wf(),
        ensures
            match r {
                Some(v) => v > 0 && spec_observed_window(*core, agent, model_id@) == Some(v as int),
                None => spec_observed_window(*core, agent, model_id@) is None,
            },
    {
        let key = Self::key(agent, model_id);
        let raw = match core.app_state.get(key.as_str()) {
            Some(raw) => raw,
            None => {
                return None;
            },
        };
        let chars = strutil::str_chars(raw.as_str());
        match strutil::parse_i64_chars(&chars) {
            Some(tokens) => {
                if tokens > 0 {
                    Some(tokens)
                } else {
                    None
                }
            },
            None => None,
        }
    }

    /// The catalog's answer for a model: inferred from the
    /// underlying provider for the aggregator vendor, else the
    /// vendor's own catalog entry.
    fn provider_context_window(agent: AgentType, model_id: &str) -> (r: Option<i64>)
        ensures
            match r {
                Some(v) => spec_catalog_window(agent, model_id@) == Some(v as int),
                None => spec_catalog_window(agent, model_id@) is None,
            },
    {
        if agent == AgentType::Opencode {
            match Self::infer_opencode_context_window(model_id) {
                Some(inferred) => {
                    return Some(inferred);
                },
                None => {},
            }
        }
        match ModelRegistry::find_model(agent, model_id) {
            Some(model) => Some(model.context_window),
            None => None,
        }
    }

    /// The inferred window for an aggregator model id of the form
    /// `provider/model`.
    fn infer_opencode_context_window(model_id: &str) -> (r: Option<i64>)
        ensures
            match r {
                Some(v) => spec_infer_opencode_window(model_id@) == Some(v as int),
                None => spec_infer_opencode_window(model_id@) is None,
            },
    {
        let chars = strutil::str_chars(model_id);
        let (provider, underlying) = match strutil::split_once_char(&chars, '/') {
            Some(parts) => parts,
            None => {
                proof {
                    assert(forall|i: int|
                        0 <= i < model_id@.len() ==> model_id@[i] != '/');
                    assert(spec_split_slash(model_id@) is None);
                }
                return None;
            },
        };
        proof {
            lemma_split_slash_witness(model_id@, provider@, underlying@);
        }
        let provider_s = strutil::chars_to_string(&provider);
        let underlying_s = strutil::chars_to_string(&underlying);
        if strutil::str_eq(provider_s.as_str(), "openai") {
            Self::openai_context_window(underlying_s.as_str())
        } else if strutil::str_eq(provider_s.as_str(), "nova") {
            let needle = strutil::str_chars("1m");
            if strutil::contains_chars(&underlying, &needle) {
                Some(crate::model_registry::NOVA_1M_CONTEXT_WINDOW)
            } else {
                Some(crate::model_registry::NOVA_CONTEXT_WINDOW)
            }
        } else if strutil::str_eq(provider_s.as_str(), "google") {
            Some(crate::model_registry::GEMINI_CONTEXT_WINDOW)
        } else {
            None
        }
    }

    /// The window of the known underlying OpenAI model lines.
    fn openai_context_window(model_id: &str) -> (r: Option<i64>)
        ensures
            match r {
                Some(v) => spec_openai_window(model_id@) == Some(v as int),
                None => spec_openai_window(model_id@) is None,
            },
    {
        if strutil::str_eq(model_id, "gpt-5.3-codex") {
            Some(crate::model_registry::CODEX_GPT53_CONTEXT_WINDOW)
        } else if strutil::str_eq(model_id, "gpt-5.3-codex-spark") {
            Some(crate::model_registry::CODEX_GPT53_SPARK_CONTEXT_WINDOW)
        } else if strutil::str_eq(model_id, "gpt-5.2-codex") || strutil::str_eq(
            model_id,
            "gpt-5.1-codex-max",
        ) || strutil::str_eq(model_id, "gpt-5.2") || strutil::str_eq(model_id, "gpt-5.1-codex-mini") {
            Some(crate::model_registry::CODEX_CONTEXT_WINDOW)
        } else {
            None
        }
    }
}

/// Renders a positive value in decimal, so that parsing it back
/// yields the same value.
fn render_i64_positive(n: i64) -> (r: String)
    requires
        n > 0,
    ensures
        strutil::spec_parse_i64(r@) == Some(n as int),
{
    let u = n as u64;
    let r = strutil::u64_to_string(u);
    proof {
        lemma_parse_of_digits(n as int, r@);
    }
    r
}

/// The decimal digits of a positive value parse back to it.
proof fn lemma_parse_of_digits(n: int, s: Seq<char>)
    requires
        n > 0,
        i64::MIN <= n <= i64::MAX,
        s == strutil::spec_u64_string(n),
    ensures
        strutil::spec_parse_i64(s) == Some(n),
{
    lemma_digits_shape(n);
    assert(s == strutil::spec_u64_digits(n));
    assert(s.len() > 0);
    assert(48 <= (s[0] as u32) <= 57 && s[0] != '-' && s[0] != '+');
    assert(strutil::spec_all_digits(s));
    assert(strutil::spec_digits_val(s) == n);
}

/// For positive `n`, the digit rendering is non-empty, consists of
/// digits, starts with a digit, and evaluates back to `n`.
proof fn lemma_digits_shape(n: int)
    requires
        n > 0,
    ensures
        strutil::spec_u64_digits(n).len() > 0,
        strutil::spec_all_digits(strutil::spec_u64_digits(n)),
        strutil::spec_digits_val(strutil::spec_u64_digits(n)) == n,
        48 <= (strutil::spec_u64_digits(n)[0] as u32) <= 57,
    decreases n,
{
    let s = strutil::spec_u64_digits(n);
    if n / 10 > 0 {
        lemma_digits_shape(n / 10);
        let prefix = strutil::spec_u64_digits(n / 10);
        assert(s == prefix.push(strutil::spec_digit_char(n % 10)));
        assert(s.drop_last() =~= prefix);
        lemma_digit_char_code(n % 10);
        assert forall|i: int| 0 <= i < s.len() implies 48 <= (#[trigger] s[i] as u32) <= 57 by {
            if i < prefix.len() {
                assert(s[i] == prefix[i]);
            }
        }
        assert(strutil::spec_digits_val(s) == strutil::spec_digits_val(prefix) * 10 + (n % 10));
    } else {
        assert(strutil::spec_u64_digits(n / 10) =~= Seq::<char>::empty());
        assert(s =~= seq![strutil::spec_digit_char(n % 10)]);
        assert(s.drop_last() =~= Seq::<char>::empty());
        lemma_digit_char_code(n % 10);
        assert(s.last() == strutil::spec_digit_char(n % 10));
        assert(strutil::spec_digits_val(Seq::<char>::empty()) == 0);
        assert(strutil::spec_digits_val(s) == strutil::spec_digits_val(s.drop_last()) * 10 + (
        s.last() as u32 - 48));
        assert(n % 10 == n);
    }
}

/// The code point of each digit character is 48 plus its value.
proof fn lemma_digit_char_code(d: int)
    requires
        0 <= d < 10,
    ensures
        (strutil::spec_digit_char(d) as u32) == 48 + d,
{
    if d == 0 {
        assert(('0' as u32) == 48);
    } else if d == 1 {
        assert(('1' as u32) == 49);
    } else if d == 2 {
        assert(('2' as u32) == 50);
    } else if d == 3 {
        assert(('3' as u32) == 51);
    } else if d == 4 {
        assert(('4' as u32) == 52);
    } else if d == 5 {
        assert(('5' as u32) == 53);
    } else if d == 6 {
        assert(('6' as u32) == 54);
    } else if d == 7 {
        assert(('7' as u32) == 55);
    } else if d == 8 {
        assert(('8' as u32) == 56);
    } else {
        assert(('9' as u32) == 57);
    }
}

/// The exec split's outcome matches `spec_split_slash`.
proof fn lemma_split_slash_witness(s: Seq<char>, before: Seq<char>, after: Seq<char>)
    requires
        before.len() + 1 + after.len() == s.len(),
        s == before + seq!['/'] + after,
        forall|j: int| 0 <= j < before.len() ==> s[j] != '/',
    ensures
        spec_split_slash(s) == Some((before, after)),
{
    let i = before.len() as int;
    assert(s[i] == '/');
    assert(exists|k: int| 0 <= k < s.len() && s[k] == '/');
    let w = choose|k: int|
        0 <= k < s.len() && s[k] == '/' && (forall|j: int| 0 <= j < k ==> s[j] != '/');
    assert(0 <= i < s.len() && s[i] == '/' && (forall|j: int| 0 <= j < i ==> s[j] != '/'));
    if w < i {
        assert(s[w] != '/');
    }
    if w > i {
        assert(s[i] != '/');
    }
    assert(w == i);
    assert(s.take(i) =~= before);
    assert(s.skip(i + 1) =~= after);
}

/// The configuration service: the user's provider and default-model
/// choices, validated against the catalog and installed tools.
pub struct ConfigService;

impl ConfigService {
    /// The effective default vendor and its default model: the
    /// configured default vendor if it is effectively enabled, else
    /// the first effectively enabled provider, else the configured
    /// default as a last resort.
    pub fn default_model(core: &ConduitCore) -> (r: (AgentType, String))
        ensures
            r.1@ == match crate::config::spec_model_override(core.config.default_models@, r.0) {
                Some(m) => m,
                None => crate::model_registry::spec_default_model_id(r.0),
            },
            r.0 == if crate::config::spec_provider_enabled(
                core.config,
                core.config.default_agent,
                core.tools,
            ) {
                core.config.default_agent
            } else if crate::config::spec_enabled_providers(core.config, core.tools).len() > 0 {
                crate::config::spec_enabled_providers(core.config, core.tools)[0]
            } else {
                core.config.default_agent
            },
    {
        let default = core.config.default_agent;
        let agent = if core.config.is_provider_enabled_effective(default, &core.tools) {
            default
        } else {
            let enabled = core.config.effective_enabled_providers(&core.tools);
            if enabled.len() > 0 {
                enabled[0]
            } else {
                default
            }
        };
        let model = core.config.default_model_for(agent);
        (agent, model)
    }

    /// Sets the default model for a vendor: refused when the vendor
    /// is not effectively enabled or the model is not in its
    /// catalog; otherwise stored.
    pub fn set_default_model(core: &mut ConduitCore, agent_type: AgentType, model_id: &str) -> (r:
        Result<(), ServiceError>)
        ensures
            final(core).tools == old(core).tools,
            final(core).app_state == old(core).app_state,
            !crate::config::spec_provider_enabled(old(core).config, agent_type, old(core).tools)
                ==> (r matches Err(e) && e is InvalidInput) && final(core).config == old(core).config,
            crate::config::spec_provider_enabled(old(core).config, agent_type, old(core).tools)
                && (forall|k: int|
                0 <= k < spec_models(agent_type).len() ==> (#[trigger] spec_models(
                    agent_type,
                )[k]).id@ != model_id@) ==> (r matches Err(e) && e is InvalidInput) && final(core).config == old(core).config,
            r is Ok ==> crate::config::spec_model_override(
                final(core).config.default_models@,
                agent_type,
            ) == Some(model_id@) && crate::config::spec_provider_enabled(
                old(core).config,
                agent_type,
                old(core).tools,
            ),
            crate::config::spec_provider_enabled(old(core).config, agent_type, old(core).tools)
                && (crate::model_registry::spec_find_model(
                spec_models(agent_type),
                model_id@,
            ) is Some) ==> r is Ok,
    {
        if !core.config.is_provider_enabled_effective(agent_type, &core.tools) {
            let mut message = String::new();
            strutil::append_str(&mut message, agent_type.display_name());
            strutil::append_str(&mut message, " is not enabled. Use /providers first.");
            return Err(ServiceError::InvalidInput(message));
        }
        if ModelRegistry::find_model(agent_type, model_id).is_none() {
            let mut message = String::new();
            strutil::append_str(&mut message, "Invalid model '");
            strutil::append_str(&mut message, model_id);
            strutil::append_str(&mut message, "' for agent type ");
            strutil::append_str(&mut message, agent_type.display_name());
            return Err(ServiceError::InvalidInput(message));
        }
        let mut owned = String::new();
        strutil::append_str(&mut owned, model_id);
        proof {
            assert(owned@ =~= model_id@);
        }
        core.config_mut().set_default_model(agent_type, owned);
        Ok(())
    }

    /// Replaces the enabled-provider list: refused when the list is
    /// empty or none of the named providers has an installed tool;
    /// otherwise stored.
    pub fn set_enabled_providers(core: &mut ConduitCore, providers: Vec<AgentType>) -> (r: Result<
        (),
        ServiceError,
    >)
        ensures
            final(core).tools == old(core).tools,
            final(core).app_state == old(core).app_state,
            providers@.len() == 0 ==> (r matches Err(e) && e is InvalidInput) && final(core).config
                == old(core).config,
            providers@.len() > 0 && (forall|k: int|
                0 <= k < providers@.len() ==> !crate::config::spec_is_available(
                    old(core).tools,
                    crate::config::spec_tool_for_agent(#[trigger] providers@[k]),
                )) ==> (r matches Err(e) && e is InvalidInput) && final(core).config == old(core).config,
            r is Ok ==> final(core).config.enabled_providers == Some(providers)
                && providers@.len() > 0 && (exists|k: int|
                0 <= k < providers@.len() && crate::config::spec_is_available(
                    old(core).tools,
                    crate::config::spec_tool_for_agent(#[trigger] providers@[k]),
                )),
            providers@.len() > 0 && (exists|k: int|
                0 <= k < providers@.len() && crate::config::spec_is_available(
                    old(core).tools,
                    crate::config::spec_tool_for_agent(#[trigger] providers@[k]),
                )) ==> r is Ok,
    {
        if providers.len() == 0 {
            let mut message = String::new();
            strutil::append_str(&mut message, "At least one provider must be enabled");
            return Err(ServiceError::InvalidInput(message));
        }
        let mut any_installed: bool = false;
        let mut i: usize = 0;
        while i < providers.len()
            invariant
                i <= providers@.len(),
                core == old(core),
                any_installed == (exists|k: int|
                    0 <= k < i && crate::config::spec_is_available(
                        core.tools,
                        crate::config::spec_tool_for_agent(#[trigger] providers@[k]),
                    )),
            decreases providers@.len() - i,
        {
            if core.tools.is_available(tool_for_agent(providers[i])) {
                proof {
                    assert(crate::config::spec_is_available(
                        core.tools,
                        crate::config::spec_tool_for_agent(providers@[i as int]),
                    ));
                }
                any_installed = true;
            }
            i = i + 1;
        }
        if !any_installed {
            let mut message = String::new();
            strutil::append_str(&mut message, "No enabled providers are currently installed");
            return Err(ServiceError::InvalidInput(message));
        }
        core.config_mut().set_enabled_providers(providers);
        Ok(())
    }
}

proof fn lemma_store_none(s: Seq<(String, String)>, k: Seq<char>)
    requires
        spec_store_lookup(s, k) is None,
    ensures
        forall|i: int| 0 <= i < s.len() ==> (#[trigger] s[i]).0@ != k,
    decreases s.len(),
{
    if s.len() > 0 {
        lemma_store_none(s.drop_first(), k);
        assert forall|i: int| 0 <= i < s.len() implies (#[trigger] s[i]).0@ != k by {
            if i > 0 {
                assert(s.drop_first()[i - 1] == s[i]);
            }
        }
    }
}

proof fn lemma_store_push(s: Seq<(String, String)>, x: (String, String), k: Seq<char>)
    requires
        spec_store_lookup(s, x.0@) is None,
    ensures
        spec_store_lookup(s.push(x), k) == if k == x.0@ {
            Some(x.1@)
        } else {
            spec_store_lookup(s, k)
        },
    decreases s.len(),
{
    if s.len() == 0 {
        assert(s.push(x)[0] == x);
        assert(s.push(x).drop_first() =~= Seq::<(String, String)>::empty());
        assert(spec_store_lookup(Seq::<(String, String)>::empty(), k) is None);
        if x.0@ == k {
            assert(spec_store_lookup(s.push(x), k) == Some(x.1@));
        } else {
            assert(spec_store_lookup(s.push(x), k) is None);
            assert(spec_store_lookup(s, k) is None);
        }
    } else {
        assert(s.push(x)[0] == s[0]);
        assert(s.push(x).drop_first() =~= s.drop_first().push(x));
        lemma_store_push(s.drop_first(), x, k);
    }
}

proof fn lemma_store_push_all(s: Seq<(String, String)>, x: (String, String))
    requires
        spec_store_lookup(s, x.0@) is None,
    ensures
        forall|q: Seq<char>|
            #![auto]
            spec_store_lookup(s.push(x), q) == (if q == x.0@ {
                Some(x.1@)
            } else {
                spec_store_lookup(s, q)
            }),
{
    assert forall|q: Seq<char>|
        #![auto]
        spec_store_lookup(s.push(x), q) == (if q == x.0@ {
            Some(x.1@)
        } else {
            spec_store_lookup(s, q)
        }) by {
        lemma_store_push(s, x, q);
    }
}

proof fn lemma_store_update(s: Seq<(String, String)>, i: int, x: (String, String), k: Seq<char>)
    requires
        0 <= i < s.len(),
        s[i].0@ == x.0@,
        forall|j: int| 0 <= j < i ==> (#[trigger] s[j]).0@ != x.0@,
    ensures
        spec_store_lookup(s.update(i, x), k) == if k == x.0@ {
            Some(x.1@)
        } else {
            spec_store_lookup(s, k)
        },
    decreases s.len(),
{
    if i == 0 {
        assert(s.update(i, x)[0] == x);
        assert(s.update(i, x).drop_first() =~= s.drop_first());
    } else {
        assert(s.update(i, x)[0] == s[0]);
        assert(s.update(i, x).drop_first() =~= s.drop_first().update(i - 1, x));
        assert(forall|j: int| 0 <= j < i - 1 ==> (#[trigger] s.drop_first()[j]).0@ != x.0@);
        lemma_store_update(s.drop_first(), i - 1, x, k);
    }
}

proof fn lemma_store_update_all(s: Seq<(String, String)>, i: int, x: (String, String))
    requires
        0 <= i < s.len(),
        s[i].0@ == x.0@,
        forall|j: int| 0 <= j < i ==> (#[trigger] s[j]).0@ != x.0@,
    ensures
        forall|q: Seq<char>|
            #![auto]
            spec_store_lookup(s.update(i, x), q) == (if q == x.0@ {
                Some(x.1@)
            } else {
                spec_store_lookup(s, q)
            }),
{
    assert forall|q: Seq<char>|
        #![auto]
        spec_store_lookup(s.update(i, x), q) == (if q == x.0@ {
            Some(x.1@)
        } else {
            spec_store_lookup(s, q)
        }) by {
        lemma_store_update(s, i, x, q);
    }
}

proof fn lemma_store_wf_update_same_key(s: Seq<(String, String)>, i: int, x: (String, String))
    requires
        0 <= i < s.len(),
        s[i].0@ == x.0@,
        forall|a: int, b: int| 0 <= a < b < s.len() ==> (#[trigger] s[a]).0@ != (#[trigger] s[b]).0@,
    ensures
        forall|a: int, b: int|
            0 <= a < b < s.len() ==> (#[trigger] s.update(i, x)[a]).0@ != (
            #[trigger] s.update(i, x)[b]).0@,
{
    assert forall|a: int, b: int|
        0 <= a < b < s.len() implies (#[trigger] s.update(i, x)[a]).0@ != (
    #[trigger] s.update(i, x)[b]).0@ by {
        assert(s.update(i, x)[a].0@ == s[a].0@ || (a == i && s.update(i, x)[a].0@ == x.0@));
        assert(s.update(i, x)[b].0@ == s[b].0@ || (b == i && s.update(i, x)[b].0@ == x.0@));
    }
}

proof fn lemma_store_remove_frame(s: Seq<(String, String)>, i: int, k: Seq<char>, q: Seq<char>)
    requires
        0 <= i < s.len(),
        s[i].0@ == k,
        forall|j: int| 0 <= j < i ==> (#[trigger] s[j]).0@ != k,
        q != k,
    ensures
        spec_store_lookup(s.remove(i), q) == spec_store_lookup(s, q),
    decreases s.len(),
{
    if i == 0 {
        assert(s.remove(i) =~= s.drop_first());
    } else {
        assert(s.remove(i)[0] == s[0]);
        assert(s.remove(i).drop_first() =~= s.drop_first().remove(i - 1));
        if s[0].0@ != q {
            assert(forall|j: int| 0 <= j < i - 1 ==> (#[trigger] s.drop_first()[j]).0@ != k);
            lemma_store_remove_frame(s.drop_first(), i - 1, k, q);
        }
    }
}

proof fn lemma_store_none_when_absent(s: Seq<(String, String)>, k: Seq<char>)
    requires
        forall|j: int| 0 <= j < s.len() ==> (#[trigger] s[j]).0@ != k,
    ensures
        spec_store_lookup(s, k) is None,
    decreases s.len(),
{
    if s.len() > 0 {
        assert(forall|j: int|
            0 <= j < s.drop_first().len() ==> #[trigger] s.drop_first()[j] == s[j + 1]);
        lemma_store_none_when_absent(s.drop_first(), k);
    }
}

proof fn lemma_store_remove(s: Seq<(String, String)>, i: int, k: Seq<char>)
    requires
        0 <= i < s.len(),
        s[i].0@ == k,
        forall|j: int| 0 <= j < i ==> (#[trigger] s[j]).0@ != k,
        forall|j1: int, j2: int|
            0 <= j1 < j2 < s.len() ==> (#[trigger] s[j1]).0@ != (#[trigger] s[j2]).0@,
    ensures
        spec_store_lookup(s.remove(i), k) is None,
        forall|q: Seq<char>| q != k ==> spec_store_lookup(s.remove(i), q) == spec_store_lookup(s, q),
    decreases s.len(),
{
    if i == 0 {
        assert(s.remove(i) =~= s.drop_first());
        assert(forall|j: int|
            0 <= j < s.drop_first().len() ==> #[trigger] s.drop_first()[j] == s[j + 1]);
        assert(forall|j: int|
            0 <= j < s.drop_first().len() ==> (#[trigger] s.drop_first()[j]).0@ != k);
        lemma_store_none_when_absent(s.drop_first(), k);
    } else {
        assert(s.remove(i)[0] == s[0]);
        assert(s.remove(i).drop_first() =~= s.drop_first().remove(i - 1));
        assert(forall|j: int| 0 <= j < i - 1 ==> (#[trigger] s.drop_first()[j]).0@ != k);
        assert(forall|j1: int, j2: int|
            0 <= j1 < j2 < s.drop_first().len() ==> (#[trigger] s.drop_first()[j1]).0@ != (
            #[trigger] s.drop_first()[j2]).0@);
        lemma_store_remove(s.drop_first(), i - 1, k);
    }
    assert forall|q: Seq<char>| q != k implies spec_store_lookup(s.remove(i), q)
        == spec_store_lookup(s, q) by {
        lemma_store_remove_frame(s, i, k, q);
    }
}

/// A fresh owned copy of a string slice.
fn string_of(s: &str) -> (r: String)
    ensures
        r@ == s@,
{
    s.to_owned()
}

} // verus!
