//! Application configuration: external tools, their availability,
//! and the user's provider and model choices.

use vstd::prelude::*;
use crate::agent::AgentType;

verus! {

/// The external command-line tools the application drives.
#[derive(Debug, Clone, Copy, PartialEq, Eq, Structural)]
pub enum Tool {
    Nova,
    Codex,
    Gemini,
    Opencode,
    Git,
    Gh,
}

impl Tool {
    /// The human-readable tool name.
    pub fn display_name(&self) -> (r: &'static str)
        ensures
            r@ == spec_tool_display_name(*self),
    {
        match self {
            Tool::Nova => "Nova CLI",
            Tool::Codex => "Codex CLI",
            Tool::Gemini => "Gemini CLI",
            Tool::Opencode => "OpenCode",
            Tool::Git => "Git",
            Tool::Gh => "GitHub CLI",
        }
    }

    /// What the tool is needed for.
    pub fn description(&self) -> (r: &'static str)
        ensures
            r@ == spec_tool_description(*self),
    {
        match self {
            Tool::Nova => "Runs Nova agent sessions.",
            Tool::Codex => "Runs Codex agent sessions.",
            Tool::Gemini => "Runs Gemini agent sessions.",
            Tool::Opencode => "Runs OpenCode agent sessions.",
            Tool::Git => "Required for repository and workspace management.",
            Tool::Gh => "Used for pull-request status and PR features.",
        }
    }

    /// Installation instructions, one command per line.
    pub fn install_instructions(&self) -> (r: &'static str)
        ensures
            r@ == spec_tool_install_instructions(*self),
    {
        match self {
            Tool::Nova => "npm install -g nova-cli",
            Tool::Codex => "npm install -g @openai/codex",
            Tool::Gemini => "npm install -g @google/gemini-cli",
            Tool::Opencode => "npm install -g opencode-ai",
            Tool::Git => "https://git-scm.com/downloads",
            Tool::Gh => "https://cli.github.com",
        }
    }

    /// Whether the application cannot run at all without the tool.
    pub fn is_required(&self) -> (r: bool)
        ensures
            r == (*self == Tool::Git),
    {
        match self {
            Tool::Git => true,
            _ => false,
        }
    }

    /// Whether the tool is one of the agent CLIs.
    pub fn is_agent(&self) -> (r: bool)
        ensures
            r == spec_tool_is_agent(*self),
    {
        match self {
            Tool::Nova | Tool::Codex | Tool::Gemini | Tool::Opencode => true,
            _ => false,
        }
    }
}

/// What `Tool::description` returns.
pub open spec fn spec_tool_description(t: Tool) -> Seq<char> {
    match t {
        Tool::Nova => "Runs Nova agent sessions."@,
        Tool::Codex => "Runs Codex agent sessions."@,
        Tool::Gemini => "Runs Gemini agent sessions."@,
        Tool::Opencode => "Runs OpenCode agent sessions."@,
        Tool::Git => "Required for repository and workspace management."@,
        Tool::Gh => "Used for pull-request status and PR features."@,
    }
}

/// What `Tool::install_instructions` returns.
pub open spec fn spec_tool_install_instructions(t: Tool) -> Seq<char> {
    match t {
        Tool::Nova => "npm install -g nova-cli"@,
        Tool::Codex => "npm install -g @openai/codex"@,
        Tool::Gemini => "npm install -g @google/gemini-cli"@,
        Tool::Opencode => "npm install -g opencode-ai"@,
        Tool::Git => "https://git-scm.com/downloads"@,
        Tool::Gh => "https://cli.github.com"@,
    }
}

/// What `Tool::display_name` returns.
pub open spec fn spec_tool_display_name(t: Tool) -> Seq<char> {
    match t {
        Tool::Nova => "Nova CLI"@,
        Tool::Codex => "Codex CLI"@,
        Tool::Gemini => "Gemini CLI"@,
        Tool::Opencode => "OpenCode"@,
        Tool::Git => "Git"@,
        Tool::Gh => "GitHub CLI"@,
    }
}

/// Whether the tool is an agent CLI.
pub open spec fn spec_tool_is_agent(t: Tool) -> bool {
    t == Tool::Nova || t == Tool::Codex || t == Tool::Gemini || t == Tool::Opencode
}

/// The agent CLI that serves a vendor.
pub fn tool_for_agent(agent: AgentType) -> (r: Tool)
    ensures
        r == spec_tool_for_agent(agent),
{
    match agent {
        AgentType::Nova => Tool::Nova,
        AgentType::Codex => Tool::Codex,
        AgentType::Gemini => Tool::Gemini,
        AgentType::Opencode => Tool::Opencode,
    }
}

/// What `tool_for_agent` returns.
pub open spec fn spec_tool_for_agent(agent: AgentType) -> Tool {
    match agent {
        AgentType::Nova => Tool::Nova,
        AgentType::Codex => Tool::Codex,
        AgentType::Gemini => Tool::Gemini,
        AgentType::Opencode => Tool::Opencode,
    }
}

/// Which external tools resolved to an installed binary.  The
/// resolution itself (path lookup) is supplied externally; this
/// records its outcome.
#[derive(Debug, Clone, Copy, PartialEq, Eq, Structural)]
pub struct ToolAvailability {
    pub nova: bool,
    pub codex: bool,
    pub gemini: bool,
    pub opencode: bool,
    pub git: bool,
    pub gh: bool,
}

impl ToolAvailability {
    /// Whether a tool resolved to an installed binary.
    pub fn is_available(&self, tool: Tool) -> (r: bool)
        ensures
            r == spec_is_available(*self, tool),
    {
        match tool {
            Tool::Nova => self.nova,
            Tool::Codex => self.codex,
            Tool::Gemini => self.gemini,
            Tool::Opencode => self.opencode,
            Tool::Git => self.git,
            Tool::Gh => self.gh,
        }
    }
}

impl Default for ToolAvailability {
    /// No tool resolved yet.
    fn default() -> (r: ToolAvailability)
        ensures
            r == (ToolAvailability {
                nova: false,
                codex: false,
                gemini: false,
                opencode: false,
                git: false,
                gh: false,
            }),
    {
        ToolAvailability {
            nova: false,
            codex: false,
            gemini: false,
            opencode: false,
            git: false,
            gh: false,
        }
    }
}

/// Which tool a `ToolAvailability` field answers for.
pub open spec fn spec_is_available(t: ToolAvailability, tool: Tool) -> bool {
    match tool {
        Tool::Nova => t.nova,
        Tool::Codex => t.codex,
        Tool::Gemini => t.gemini,
        Tool::Opencode => t.opencode,
        Tool::Git => t.git,
        Tool::Gh => t.gh,
    }
}

/// The four agent vendors, in their canonical order.
pub fn all_providers() -> (r: Vec<AgentType>)
    ensures
        r@ == seq![AgentType::Nova, AgentType::Codex, AgentType::Gemini, AgentType::Opencode],
{
    let mut v: Vec<AgentType> = Vec::new();
    v.push(AgentType::Nova);
    v.push(AgentType::Codex);
    v.push(AgentType::Gemini);
    v.push(AgentType::Opencode);
    proof {
        assert(v@ =~= seq![
            AgentType::Nova,
            AgentType::Codex,
            AgentType::Gemini,
            AgentType::Opencode,
        ]);
    }
    v
}

/// Whether a provider list names the given vendor.
pub fn providers_contain(list: &Vec<AgentType>, agent: AgentType) -> (r: bool)
    ensures
        r == exists|j: int| 0 <= j < list@.len() && list@[j] == agent,
{
    let mut i: usize = 0;
    while i < list.len()
        invariant
            i <= list@.len(),
            forall|j: int| 0 <= j < i ==> list@[j] != agent,
        decreases list@.len() - i,
    {
        if list[i] == agent {
            proof {
                assert(0 <= i < list@.len() && list@[i as int] == agent);
            }
            return true;
        }
        i = i + 1;
    }
    false
}

/// The user's configuration: the default vendor, the enabled
/// providers (absent means all), and per-vendor default-model
/// overrides.
#[derive(Debug, Clone, PartialEq, Eq)]
pub struct Config {
    pub default_agent: AgentType,
    pub enabled_providers: Option<Vec<AgentType>>,
    pub default_models: Vec<(AgentType, String)>,
}

/// The first default-model override for a vendor, if any.
pub open spec fn spec_model_override(s: Seq<(AgentType, String)>, agent: AgentType) -> Option<
    Seq<char>,
>
    decreases s.len(),
{
    if s.len() == 0 {
        None
    } else if s[0].0 == agent {
        Some(s[0].1@)
    } else {
        spec_model_override(s.drop_first(), agent)
    }
}

impl Config {
    /// Whether a provider is effectively enabled: its tool is
    /// installed, and either no explicit provider list is set or
    /// the list names it.
    pub fn is_provider_enabled_effective(&self, agent: AgentType, tools: &ToolAvailability) -> (r:
        bool)
        ensures
            r == spec_provider_enabled(*self, agent, *tools),
    {
        if !tools.is_available(tool_for_agent(agent)) {
            return false;
        }
        match &self.enabled_providers {
            None => true,
            Some(list) => providers_contain(list, agent),
        }
    }

    /// The providers effectively enabled, in canonical order.
    pub fn effective_enabled_providers(&self, tools: &ToolAvailability) -> (r: Vec<AgentType>)
        ensures
            r@ == spec_enabled_providers(*self, *tools),
            forall|k: int|
                0 <= k < r@.len() ==> spec_provider_enabled(*self, #[trigger] r@[k], *tools),
            (exists|a: AgentType| spec_provider_enabled(*self, a, *tools)) ==> r@.len() > 0,
    {
        let candidates = all_providers();
        let mut out: Vec<AgentType> = Vec::new();
        let mut i: usize = 0;
        while i < candidates.len()
            invariant
                i <= candidates@.len(),
                candidates@ == seq![
                    AgentType::Nova,
                    AgentType::Codex,
                    AgentType::Gemini,
                    AgentType::Opencode,
                ],
                out@ == spec_enabled_prefix(*self, *tools, i as int),
                forall|k: int|
                    0 <= k < out@.len() ==> spec_provider_enabled(*self, #[trigger] out@[k], *tools),
                forall|j: int|
                    0 <= j < i ==> (spec_provider_enabled(*self, #[trigger] candidates@[j], *tools)
                        ==> out@.len() > 0),
            decreases candidates@.len() - i,
        {
            if self.is_provider_enabled_effective(candidates[i], tools) {
                out.push(candidates[i]);
            }
            i = i + 1;
        }
        proof {
            if exists|a: AgentType| spec_provider_enabled(*self, a, *tools) {
                let a = choose|a: AgentType| spec_provider_enabled(*self, a, *tools);
                assert(a == candidates@[0] || a == candidates@[1] || a == candidates@[2] || a
                    == candidates@[3]);
            }
        }
        out
    }

    /// The default model for a vendor: the stored override, or the
    /// catalog's default.
    pub fn default_model_for(&self, agent: AgentType) -> (r: String)
        ensures
            r@ == match spec_model_override(self.default_models@, agent) {
                Some(m) => m,
                None => crate::model_registry::spec_default_model_id(agent),
            },
    {
        let mut i: usize = 0;
        proof {
            assert(self.default_models@.skip(0) =~= self.default_models@);
        }
        while i < self.default_models.len()
            invariant
                i <= self.default_models@.len(),
                spec_model_override(self.default_models@.skip(i as int), agent)
                    == spec_model_override(self.default_models@, agent),
                forall|j: int| 0 <= j < i ==> (#[trigger] self.default_models@[j]).0 != agent,
            decreases self.default_models@.len() - i,
        {
            if self.default_models[i].0 == agent {
                proof {
                    let tail = self.default_models@.skip(i as int);
                    assert(tail[0] == self.default_models@[i as int]);
                }
                return self.default_models[i].1.clone();
            }
            i = i + 1;
            proof {
                let prev = self.default_models@.skip(i - 1);
                assert(prev[0] == self.default_models@[i - 1]);
                assert(prev.drop_first() =~= self.default_models@.skip(i as int));
            }
        }
        proof {
            assert(self.default_models@.skip(i as int) =~= Seq::<(AgentType, String)>::empty());
        }
        let id = crate::model_registry::ModelRegistry::default_model_id(agent);
        let mut s = String::new();
        crate::strutil::append_str(&mut s, id);
        proof {
            assert(s@ =~= crate::model_registry::spec_default_model_id(agent));
        }
        s
    }

    /// Stores a default-model override for a vendor, replacing any
    /// prior one.
    pub fn set_default_model(&mut self, agent: AgentType, model_id: String)
        ensures
            spec_model_override(final(self).default_models@, agent) == Some(model_id@),
            final(self).default_agent == old(self).default_agent,
            final(self).enabled_providers == old(self).enabled_providers,
    {
        let mut i: usize = 0;
        let n = self.default_models.len();
        while i < n
            invariant
                n == self.default_models@.len(),
                i <= n,
                self.default_models@ == old(self).default_models@,
                self.default_agent == old(self).default_agent,
                self.enabled_providers == old(self).enabled_providers,
                forall|j: int| 0 <= j < i ==> (#[trigger] self.default_models@[j]).0 != agent,
            decreases n - i,
        {
            if self.default_models[i].0 == agent {
                let updated = (agent, model_id);
                let ghost gx = updated;
                self.default_models.set(i, updated);
                proof {
                    lemma_override_update_one(old(self).default_models@, i as int, gx);
                }
                return;
            }
            i = i + 1;
        }
        let fresh = (agent, model_id);
        let ghost gx = fresh;
        self.default_models.push(fresh);
        proof {
            lemma_override_push_one(old(self).default_models@, gx);
        }
    }

    /// Replaces the explicit provider list.
    pub fn set_enabled_providers(&mut self, providers: Vec<AgentType>)
        ensures
            final(self).enabled_providers == Some(providers),
            final(self).default_agent == old(self).default_agent,
            final(self).default_models == old(self).default_models,
    {
        self.enabled_providers = Some(providers);
    }
}

impl Default for Config {
    /// The out-of-the-box configuration: the first vendor as the
    /// default, all providers enabled, no overrides.
    fn default() -> (r: Config)
        ensures
            r.default_agent == AgentType::Nova,
            r.enabled_providers is None,
            r.default_models@.len() == 0,
    {
        Config { default_agent: AgentType::Nova, enabled_providers: None, default_models: Vec::new() }
    }
}

/// The effectively enabled providers among the first `i` of the
/// canonical vendor order.
pub open spec fn spec_enabled_prefix(c: Config, tools: ToolAvailability, i: int) -> Seq<AgentType>
    decreases i,
{
    let order = seq![AgentType::Nova, AgentType::Codex, AgentType::Gemini, AgentType::Opencode];
    if i <= 0 {
        Seq::empty()
    } else if spec_provider_enabled(c, order[i - 1], tools) {
        spec_enabled_prefix(c, tools, i - 1).push(order[i - 1])
    } else {
        spec_enabled_prefix(c, tools, i - 1)
    }
}

/// The effectively enabled providers, in canonical order.
pub open spec fn spec_enabled_providers(c: Config, tools: ToolAvailability) -> Seq<AgentType> {
    spec_enabled_prefix(c, tools, 4)
}

/// Whether a provider is effectively enabled under a configuration.
pub open spec fn spec_provider_enabled(c: Config, agent: AgentType, tools: ToolAvailability) -> bool {
    &&& spec_is_available(tools, spec_tool_for_agent(agent))
    &&& match c.enabled_providers {
        None => true,
        Some(list) => exists|j: int| 0 <= j < list@.len() && list@[j] == agent,
    }
}

proof fn lemma_override_update_one(s: Seq<(AgentType, String)>, i: int, x: (AgentType, String))
    requires
        0 <= i < s.len(),
        s[i].0 == x.0,
        forall|j: int| 0 <= j < i ==> (#[trigger] s[j]).0 != x.0,
    ensures
        spec_model_override(s.update(i, x), x.0) == Some(x.1@),
    decreases s.len(),
{
    if i == 0 {
        assert(s.update(i, x)[0] == x);
    } else {
        assert(s.update(i, x)[0] == s[0]);
        assert(s.update(i, x).drop_first() =~= s.drop_first().update(i - 1, x));
        assert(forall|j: int| 0 <= j < i - 1 ==> (#[trigger] s.drop_first()[j]).0 != x.0);
        lemma_override_update_one(s.drop_first(), i - 1, x);
    }
}

proof fn lemma_override_push_one(s: Seq<(AgentType, String)>, x: (AgentType, String))
    requires
        forall|j: int| 0 <= j < s.len() ==> (#[trigger] s[j]).0 != x.0,
    ensures
        spec_model_override(s.push(x), x.0) == Some(x.1@),
    decreases s.len(),
{
    if s.len() == 0 {
        assert(s.push(x)[0] == x);
    } else {
        assert(s.push(x)[0] == s[0]);
        assert(s.push(x).drop_first() =~= s.drop_first().push(x));
        assert(forall|j: int|
            0 <= j < s.drop_first().len() ==> (#[trigger] s.drop_first()[j]).0 != x.0);
        lemma_override_push_one(s.drop_first(), x);
    }
}

} // verus!
