//! Errors of the strategy intelligence layer.

use vstd::prelude::*;

verus! {

/// AI-level errors.
#[derive(Debug, PartialEq, Eq)]
pub enum AiError {
    /// No strategies available.
    NoCandidates,
    /// Registry error.
    Registry(String),
    /// History store error.
    History(String),
    /// Evolution error (not enough parents, etc.).
    Evolution(String),
    /// Serialization error.
    Serialization(String),
    /// Orchestrator error.
    Orchestrator(String),
}

/// The human-readable text of an error.
pub open spec fn ai_error_text(e: AiError) -> Seq<char> {
    match e {
        AiError::NoCandidates => "no candidates available"@,
        AiError::Registry(m) => "registry error: "@ + m@,
        AiError::History(m) => "history error: "@ + m@,
        AiError::Evolution(m) => "evolution error: "@ + m@,
        AiError::Serialization(m) => "serialization error: "@ + m@,
        AiError::Orchestrator(m) => "orchestrator error: "@ + m@,
    }
}

impl AiError {
    /// The human-readable text of this error.
    pub fn to_string(&self) -> (r: String)
        ensures
            r@ == ai_error_text(*self),
    {
        match self {
            AiError::NoCandidates => String::from_str("no candidates available"),
            AiError::Registry(m) => {
                let mut s = String::from_str("registry error: ");
                s.append(m.as_str());
                s
            },
            AiError::History(m) => {
                let mut s = String::from_str("history error: ");
                s.append(m.as_str());
                s
            },
            AiError::Evolution(m) => {
                let mut s = String::from_str("evolution error: ");
                s.append(m.as_str());
                s
            },
            AiError::Serialization(m) => {
                let mut s = String::from_str("serialization error: ");
                s.append(m.as_str());
                s
            },
            AiError::Orchestrator(m) => {
                let mut s = String::from_str("orchestrator error: ");
                s.append(m.as_str());
                s
            },
        }
    }
}

} // verus!
