//! Error taxonomy of the orchestration core.

use vstd::prelude::*;

verus! {

/// Errors surfaced by the session registry and the agent lifecycle.
///
/// `NotFound`, `AlreadyRunning`, `Unavailable` and `Unsupported` are
/// user-visible protocol errors and are never retried automatically.
/// `SpawnFailure` aborts session creation without leaving a partial
/// registry entry.  `InputClosed` reports an input sink that the
/// process has already closed.  `Internal` carries a description of a
/// persistence or serialization failure.
#[derive(Debug, Clone, PartialEq, Eq)]
pub enum SessionError {
    NotFound,
    AlreadyRunning,
    Unavailable,
    SpawnFailure,
    InputClosed,
    Unsupported,
    Internal(String),
}

impl SessionError {
    /// A short, stable label for the error, for protocol frames.
    pub fn label(&self) -> (r: &'static str)
        ensures
            r@ == spec_session_error_label(self),
    {
        match self {
            SessionError::NotFound => "session not found",
            SessionError::AlreadyRunning => "session is already running",
            SessionError::Unavailable => "agent tool is not available",
            SessionError::SpawnFailure => "failed to start agent",
            SessionError::InputClosed => "agent input is closed",
            SessionError::Unsupported => "operation not supported for this agent",
            SessionError::Internal(_) => "internal error",
        }
    }
}

/// The label that `SessionError::label` returns for each variant.
pub open spec fn spec_session_error_label(e: &SessionError) -> Seq<char> {
    match e {
        SessionError::NotFound => "session not found"@,
        SessionError::AlreadyRunning => "session is already running"@,
        SessionError::Unavailable => "agent tool is not available"@,
        SessionError::SpawnFailure => "failed to start agent"@,
        SessionError::InputClosed => "agent input is closed"@,
        SessionError::Unsupported => "operation not supported for this agent"@,
        SessionError::Internal(_) => "internal error"@,
    }
}

/// Errors surfaced by the configuration and context-window services.
#[derive(Debug, Clone, PartialEq, Eq)]
pub enum ServiceError {
    InvalidInput(String),
    NotFound(String),
    Internal(String),
}

impl ServiceError {
    /// The message carried by the error.
    pub fn message(&self) -> (r: &String)
        ensures
            r@ == spec_service_error_message(self),
    {
        match self {
            ServiceError::InvalidInput(message) => message,
            ServiceError::NotFound(message) => message,
            ServiceError::Internal(message) => message,
        }
    }
}

/// The message that `ServiceError::message` returns.
pub open spec fn spec_service_error_message(e: &ServiceError) -> Seq<char> {
    match e {
        ServiceError::InvalidInput(message) => message@,
        ServiceError::NotFound(message) => message@,
        ServiceError::Internal(message) => message@,
    }
}

} // verus!
