//! The model catalog: the models each vendor offers, their context
//! windows, and per-vendor defaults.

use vstd::prelude::*;
use crate::agent::AgentType;
use crate::strutil;

verus! {

/// The context window of the standard Nova models, in tokens.
pub const NOVA_CONTEXT_WINDOW: i64 = 200_000;

/// The context window of the long-context Nova variant.
pub const NOVA_1M_CONTEXT_WINDOW: i64 = 1_000_000;

/// The context window of the Gemini models.
pub const GEMINI_CONTEXT_WINDOW: i64 = 1_048_576;

/// The context window of the standard Codex models.
pub const CODEX_CONTEXT_WINDOW: i64 = 272_000;

/// The context window of the large Codex model line.
pub const CODEX_GPT53_CONTEXT_WINDOW: i64 = 400_000;

/// The context window of the small Codex model line.
pub const CODEX_GPT53_SPARK_CONTEXT_WINDOW: i64 = 128_000;

/// One catalog entry.
#[derive(Debug, Clone, Copy, PartialEq, Eq)]
pub struct ModelInfo {
    pub id: &'static str,
    pub display_name: &'static str,
    pub context_window: i64,
    pub is_default: bool,
}

/// The static model catalog.
pub struct ModelRegistry;

/// The catalog entries for one vendor.
pub open spec fn spec_models(agent: AgentType) -> Seq<ModelInfo> {
    match agent {
        AgentType::Nova => seq![
            ModelInfo {
                id: "nova-large-4",
                display_name: "Nova Large 4",
                context_window: NOVA_CONTEXT_WINDOW,
                is_default: true,
            },
            ModelInfo {
                id: "nova-max-4",
                display_name: "Nova Max 4",
                context_window: NOVA_CONTEXT_WINDOW,
                is_default: false,
            },
            ModelInfo {
                id: "nova-large-4-1m",
                display_name: "Nova Large 4 (1M)",
                context_window: NOVA_1M_CONTEXT_WINDOW,
                is_default: false,
            },
        ],
        AgentType::Codex => seq![
            ModelInfo {
                id: "gpt-5.3-codex",
                display_name: "GPT-5.3 Codex",
                context_window: CODEX_GPT53_CONTEXT_WINDOW,
                is_default: true,
            },
            ModelInfo {
                id: "gpt-5.3-codex-spark",
                display_name: "GPT-5.3 Codex Spark",
                context_window: CODEX_GPT53_SPARK_CONTEXT_WINDOW,
                is_default: false,
            },
            ModelInfo {
                id: "gpt-5.2-codex",
                display_name: "GPT-5.2 Codex",
                context_window: CODEX_CONTEXT_WINDOW,
                is_default: false,
            },
        ],
        AgentType::Gemini => seq![
            ModelInfo {
                id: "gemini-2.5-pro",
                display_name: "Gemini 2.5 Pro",
                context_window: GEMINI_CONTEXT_WINDOW,
                is_default: true,
            },
            ModelInfo {
                id: "gemini-2.5-flash",
                display_name: "Gemini 2.5 Flash",
                context_window: GEMINI_CONTEXT_WINDOW,
                is_default: false,
            },
        ],
        AgentType::Opencode => Seq::empty(),
    }
}

impl ModelRegistry {
    /// The catalog for one vendor, as a vector.
    pub fn models(agent: AgentType) -> (r: Vec<ModelInfo>)
        ensures
            r@ == spec_models(agent),
    {
        let mut v: Vec<ModelInfo> = Vec::new();
        match agent {
            AgentType::Nova => {
                v.push(ModelInfo {
                    id: "nova-large-4",
                    display_name: "Nova Large 4",
                    context_window: NOVA_CONTEXT_WINDOW,
                    is_default: true,
                });
                v.push(ModelInfo {
                    id: "nova-max-4",
                    display_name: "Nova Max 4",
                    context_window: NOVA_CONTEXT_WINDOW,
                    is_default: false,
                });
                v.push(ModelInfo {
                    id: "nova-large-4-1m",
                    display_name: "Nova Large 4 (1M)",
                    context_window: NOVA_1M_CONTEXT_WINDOW,
                    is_default: false,
                });
            },
            AgentType::Codex => {
                v.push(ModelInfo {
                    id: "gpt-5.3-codex",
                    display_name: "GPT-5.3 Codex",
                    context_window: CODEX_GPT53_CONTEXT_WINDOW,
                    is_default: true,
                });
                v.push(ModelInfo {
                    id: "gpt-5.3-codex-spark",
                    display_name: "GPT-5.3 Codex Spark",
                    context_window: CODEX_GPT53_SPARK_CONTEXT_WINDOW,
                    is_default: false,
                });
                v.push(ModelInfo {
                    id: "gpt-5.2-codex",
                    display_name: "GPT-5.2 Codex",
                    context_window: CODEX_CONTEXT_WINDOW,
                    is_default: false,
                });
            },
            AgentType::Gemini => {
                v.push(ModelInfo {
                    id: "gemini-2.5-pro",
                    display_name: "Gemini 2.5 Pro",
                    context_window: GEMINI_CONTEXT_WINDOW,
                    is_default: true,
                });
                v.push(ModelInfo {
                    id: "gemini-2.5-flash",
                    display_name: "Gemini 2.5 Flash",
                    context_window: GEMINI_CONTEXT_WINDOW,
                    is_default: false,
                });
            },
            AgentType::Opencode => {},
        }
        proof {
            assert(v@ =~= spec_models(agent));
        }
        v
    }

    /// Looks a model id up in a vendor's catalog: the first entry
    /// with that id, if the vendor lists one.
    pub fn find_model(agent: AgentType, model_id: &str) -> (r: Option<ModelInfo>)
        ensures
            r == spec_find_model(spec_models(agent), model_id@),
            match r {
                Some(m) => m.id@ == model_id@ && exists|k: int|
                    0 <= k < spec_models(agent).len() && spec_models(agent)[k] == m,
                None => forall|k: int|
                    0 <= k < spec_models(agent).len() ==> (#[trigger] spec_models(agent)[k]).id@
                        != model_id@,
            },
    {
        let models = Self::models(agent);
        let mut i: usize = 0;
        proof {
            assert(models@.skip(0) =~= models@);
        }
        while i < models.len()
            invariant
                i <= models@.len(),
                models@ == spec_models(agent),
                forall|k: int| 0 <= k < i ==> (#[trigger] models@[k]).id@ != model_id@,
                spec_find_model(models@.skip(i as int), model_id@) == spec_find_model(
                    models@,
                    model_id@,
                ),
            decreases models@.len() - i,
        {
            if strutil::str_eq(models[i].id, model_id) {
                proof {
                    let tail = models@.skip(i as int);
                    assert(tail[0] == models@[i as int]);
                    assert(0 <= i < spec_models(agent).len() && spec_models(agent)[i as int]
                        == models@[i as int]);
                }
                return Some(models[i]);
            }
            i = i + 1;
            proof {
                let prev = models@.skip(i - 1);
                assert(prev[0] == models@[i - 1]);
                assert(prev.drop_first() =~= models@.skip(i as int));
            }
        }
        proof {
            assert(models@.skip(i as int) =~= Seq::<ModelInfo>::empty());
        }
        None
    }

    /// The fallback context window for a vendor when neither an
    /// observed value nor a catalog entry exists.
    pub fn default_context_window(agent: AgentType) -> (r: i64)
        ensures
            r == spec_default_context_window(agent),
    {
        match agent {
            AgentType::Nova => NOVA_CONTEXT_WINDOW,
            AgentType::Codex => CODEX_CONTEXT_WINDOW,
            AgentType::Gemini => GEMINI_CONTEXT_WINDOW,
            AgentType::Opencode => NOVA_CONTEXT_WINDOW,
        }
    }

    /// The vendor's default model id.
    pub fn default_model_id(agent: AgentType) -> (r: &'static str)
        ensures
            r@ == spec_default_model_id(agent),
    {
        match agent {
            AgentType::Nova => "nova-large-4",
            AgentType::Codex => "gpt-5.3-codex",
            AgentType::Gemini => "gemini-2.5-pro",
            AgentType::Opencode => "nova/nova-large-4",
        }
    }
}

/// The first catalog entry with the given id, if any.
pub open spec fn spec_find_model(s: Seq<ModelInfo>, id: Seq<char>) -> Option<ModelInfo>
    decreases s.len(),
{
    if s.len() == 0 {
        None
    } else if s[0].id@ == id {
        Some(s[0])
    } else {
        spec_find_model(s.drop_first(), id)
    }
}

/// What `ModelRegistry::default_context_window` returns.
pub open spec fn spec_default_context_window(agent: AgentType) -> i64 {
    match agent {
        AgentType::Nova => NOVA_CONTEXT_WINDOW,
        AgentType::Codex => CODEX_CONTEXT_WINDOW,
        AgentType::Gemini => GEMINI_CONTEXT_WINDOW,
        AgentType::Opencode => NOVA_CONTEXT_WINDOW,
    }
}

/// What `ModelRegistry::default_model_id` returns.
pub open spec fn spec_default_model_id(agent: AgentType) -> Seq<char> {
    match agent {
        AgentType::Nova => "nova-large-4"@,
        AgentType::Codex => "gpt-5.3-codex"@,
        AgentType::Gemini => "gemini-2.5-pro"@,
        AgentType::Opencode => "nova/nova-large-4"@,
    }
}

} // verus!
