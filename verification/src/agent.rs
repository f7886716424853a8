//! Agent vendors, their event stream, and their input encodings.
//!
//! Every vendor CLI presents the same lifecycle: it is spawned, emits
//! an ordered stream of structured events, accepts input messages,
//! and is stopped by a termination signal.  The vendors differ only
//! in capabilities and in how an input message is encoded, which this
//! module captures as a closed enumeration with one encoder decision
//! per vendor.

use vstd::prelude::*;

verus! {

/// The closed set of supported agent vendors.
#[derive(Debug, Clone, Copy, PartialEq, Eq, Structural)]
pub enum AgentType {
    Nova,
    Codex,
    Gemini,
    Opencode,
}

impl AgentType {
    /// The stable identifier used in configuration keys and protocol frames.
    pub fn as_str(&self) -> (r: &'static str)
        ensures
            r@ == spec_agent_type_str(*self),
    {
        match self {
            AgentType::Nova => "nova",
            AgentType::Codex => "codex",
            AgentType::Gemini => "gemini",
            AgentType::Opencode => "opencode",
        }
    }

    /// The human-readable vendor name.
    pub fn display_name(&self) -> (r: &'static str)
        ensures
            r@ == spec_agent_display_name(*self),
    {
        match self {
            AgentType::Nova => "Nova CLI",
            AgentType::Codex => "Codex",
            AgentType::Gemini => "Gemini",
            AgentType::Opencode => "OpenCode",
        }
    }

    /// Parses a stable identifier back into a vendor; unknown
    /// identifiers fall back to `Nova`.
    pub fn parse(s: &str) -> (r: AgentType)
        ensures
            r == spec_parse_agent_type(s@),
    {
        if crate::strutil::str_eq(s, "codex") {
            AgentType::Codex
        } else if crate::strutil::str_eq(s, "gemini") {
            AgentType::Gemini
        } else if crate::strutil::str_eq(s, "opencode") {
            AgentType::Opencode
        } else {
            AgentType::Nova
        }
    }

    /// Whether the vendor supports the interactive control protocol
    /// (permission prompts answered over the input sink).
    pub fn supports_control_protocol(&self) -> (r: bool)
        ensures
            r == (*self == AgentType::Nova),
    {
        match self {
            AgentType::Nova => true,
            _ => false,
        }
    }
}

/// What `AgentType::as_str` returns for each vendor.
pub open spec fn spec_agent_type_str(t: AgentType) -> Seq<char> {
    match t {
        AgentType::Nova => "nova"@,
        AgentType::Codex => "codex"@,
        AgentType::Gemini => "gemini"@,
        AgentType::Opencode => "opencode"@,
    }
}

/// What `AgentType::display_name` returns for each vendor.
pub open spec fn spec_agent_display_name(t: AgentType) -> Seq<char> {
    match t {
        AgentType::Nova => "Nova CLI"@,
        AgentType::Codex => "Codex"@,
        AgentType::Gemini => "Gemini"@,
        AgentType::Opencode => "OpenCode"@,
    }
}

/// What `AgentType::parse` returns for each identifier.
pub open spec fn spec_parse_agent_type(s: Seq<char>) -> AgentType {
    if s == "codex"@ {
        AgentType::Codex
    } else if s == "gemini"@ {
        AgentType::Gemini
    } else if s == "opencode"@ {
        AgentType::Opencode
    } else {
        AgentType::Nova
    }
}

/// Reasoning-effort settings a vendor may accept.
#[derive(Debug, Clone, Copy, PartialEq, Eq, Structural)]
pub enum ReasoningEffort {
    Minimal,
    Low,
    Medium,
    High,
    XHigh,
}

/// Session-init metadata emitted by a freshly started process: the
/// vendor-assigned session identifier and the model actually in use.
#[derive(Debug, Clone, PartialEq, Eq)]
pub struct SessionInitEvent {
    pub session_id: String,
    pub model: Option<String>,
}

/// A chunk of assistant output.
#[derive(Debug, Clone, PartialEq, Eq)]
pub struct AssistantMessageEvent {
    pub text: String,
    pub is_final: bool,
}

/// One structured event on an agent process's ordered output stream.
#[derive(Debug, Clone, PartialEq, Eq)]
pub enum AgentEvent {
    SessionInit(SessionInitEvent),
    AssistantMessage(AssistantMessageEvent),
    ToolInvocation(String),
    ErrorEvent(String),
    Completed,
}

/// An encoded input message ready for a vendor's input sink.
///
/// One vendor speaks a line-delimited JSON protocol; the others take
/// a structured prompt plus image attachments.
#[derive(Debug, Clone, PartialEq, Eq)]
pub enum AgentInput {
    NovaJsonl(String),
    CodexPrompt { text: String, images: Vec<ImageAttachment> },
}

/// An image attachment carried alongside a prompt (base64-encoded).
#[derive(Debug, Clone, PartialEq, Eq)]
pub struct ImageAttachment {
    pub data: String,
    pub media_type: String,
}

/// Whether an encoded input is the right shape for the vendor and
/// carries exactly the given text.
pub open spec fn spec_input_matches(t: AgentType, text: Seq<char>, input: AgentInput) -> bool {
    match input {
        AgentInput::NovaJsonl(s) => t == AgentType::Nova && s@ == text,
        AgentInput::CodexPrompt { text: s, images } => {
            &&& t != AgentType::Nova
            &&& s@ == text
            &&& images@.len() == 0
        },
    }
}

/// Encodes a plain input text for a vendor: the line-oriented JSON
/// vendor takes the text as one JSONL line, all others as a
/// structured prompt without attachments.
pub fn encode_input(t: AgentType, text: String) -> (r: AgentInput)
    ensures
        spec_input_matches(t, text@, r),
{
    match t {
        AgentType::Nova => AgentInput::NovaJsonl(text),
        _ => AgentInput::CodexPrompt { text, images: Vec::new() },
    }
}

} // verus!
