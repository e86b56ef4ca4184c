//! AiOrchestratorService: the strategy lifecycle as a finite state machine.
//!
//! Idle → Fingerprinting → Selecting → Executing → Verifying → Evolving → Idle,
//! with a fault or a reset returning to Idle from any state.

use vstd::prelude::*;
use crate::ai::error::AiError;
use crate::text::{append_debug_quoted, append_uuid, debug_quoted, uuid_text};

verus! {

/// States of the state machine, some with context.
#[derive(Debug, PartialEq, Eq)]
pub enum OrchestratorState {
    Idle,
    Fingerprinting,
    Selecting { network_hash: String },
    Executing { network_hash: String, strategy_id: u128 },
    Verifying { network_hash: String, strategy_id: u128 },
    Evolving { network_hash: String },
}

impl Clone for OrchestratorState {
    fn clone(&self) -> (r: Self)
        ensures
            r == *self,
    {
        match self {
            OrchestratorState::Idle => OrchestratorState::Idle,
            OrchestratorState::Fingerprinting => OrchestratorState::Fingerprinting,
            OrchestratorState::Selecting { network_hash } => OrchestratorState::Selecting {
                network_hash: network_hash.clone(),
            },
            OrchestratorState::Executing { network_hash, strategy_id } => OrchestratorState::Executing {
                network_hash: network_hash.clone(),
                strategy_id: *strategy_id,
            },
            OrchestratorState::Verifying { network_hash, strategy_id } => OrchestratorState::Verifying {
                network_hash: network_hash.clone(),
                strategy_id: *strategy_id,
            },
            OrchestratorState::Evolving { network_hash } => OrchestratorState::Evolving {
                network_hash: network_hash.clone(),
            },
        }
    }
}

/// Events that drive transitions.
#[derive(Debug)]
pub enum OrchestratorEvent {
    Start,
    FingerprintAcquired { network_hash: String },
    SelectionMade { strategy_id: u128 },
    ExecutionStarted,
    VerificationCompleted,
    EvolutionCompleted,
    Fault { reason: String },
    Reset,
}

/// Orchestrator configuration.
#[derive(Debug, Clone, Copy, PartialEq, Eq)]
pub struct OrchestratorConfig {
    pub max_retries: usize,
    pub timeout_ms: u64,
}

impl Default for OrchestratorConfig {
    fn default() -> (r: Self)
        ensures
            r.max_retries == 3,
            r.timeout_ms == 5000,
    {
        OrchestratorConfig { max_retries: 3, timeout_ms: 5000 }
    }
}

/// The state after an event, or `None` when the event is not allowed in the
/// state. A fault or a reset leads to Idle from every state.
pub open spec fn next_state(s: OrchestratorState, e: OrchestratorEvent) -> Option<OrchestratorState> {
    match e {
        OrchestratorEvent::Fault { .. } => Some(OrchestratorState::Idle),
        OrchestratorEvent::Reset => Some(OrchestratorState::Idle),
        OrchestratorEvent::Start => match s {
            OrchestratorState::Idle => Some(OrchestratorState::Fingerprinting),
            _ => None,
        },
        OrchestratorEvent::FingerprintAcquired { network_hash } => match s {
            OrchestratorState::Fingerprinting => Some(OrchestratorState::Selecting { network_hash }),
            _ => None,
        },
        OrchestratorEvent::SelectionMade { strategy_id } => match s {
            OrchestratorState::Selecting { network_hash } => Some(
                OrchestratorState::Executing { network_hash, strategy_id },
            ),
            _ => None,
        },
        OrchestratorEvent::ExecutionStarted => match s {
            OrchestratorState::Executing { network_hash, strategy_id } => Some(
                OrchestratorState::Verifying { network_hash, strategy_id },
            ),
            _ => None,
        },
        OrchestratorEvent::VerificationCompleted => match s {
            OrchestratorState::Verifying { network_hash, .. } => Some(
                OrchestratorState::Evolving { network_hash },
            ),
            _ => None,
        },
        OrchestratorEvent::EvolutionCompleted => match s {
            OrchestratorState::Evolving { .. } => Some(OrchestratorState::Idle),
            _ => None,
        },
    }
}

/// Debug text of a state.
pub open spec fn state_debug(s: OrchestratorState) -> Seq<char> {
    match s {
        OrchestratorState::Idle => "Idle"@,
        OrchestratorState::Fingerprinting => "Fingerprinting"@,
        OrchestratorState::Selecting { network_hash } => "Selecting { network_hash: "@ + debug_quoted(
            network_hash@,
        ) + " }"@,
        OrchestratorState::Executing { network_hash, strategy_id } => "Executing { network_hash: "@
            + debug_quoted(network_hash@) + ", strategy_id: "@ + uuid_text(strategy_id) + " }"@,
        OrchestratorState::Verifying { network_hash, strategy_id } => "Verifying { network_hash: "@
            + debug_quoted(network_hash@) + ", strategy_id: "@ + uuid_text(strategy_id) + " }"@,
        OrchestratorState::Evolving { network_hash } => "Evolving { network_hash: "@ + debug_quoted(
            network_hash@,
        ) + " }"@,
    }
}

/// Debug text of an event.
pub open spec fn event_debug(e: OrchestratorEvent) -> Seq<char> {
    match e {
        OrchestratorEvent::Start => "Start"@,
        OrchestratorEvent::FingerprintAcquired { network_hash } => "FingerprintAcquired { network_hash: "@
            + debug_quoted(network_hash@) + " }"@,
        OrchestratorEvent::SelectionMade { strategy_id } => "SelectionMade { strategy_id: "@ + uuid_text(
            strategy_id,
        ) + " }"@,
        OrchestratorEvent::ExecutionStarted => "ExecutionStarted"@,
        OrchestratorEvent::VerificationCompleted => "VerificationCompleted"@,
        OrchestratorEvent::EvolutionCompleted => "EvolutionCompleted"@,
        OrchestratorEvent::Fault { reason } => "Fault { reason: "@ + debug_quoted(reason@) + " }"@,
        OrchestratorEvent::Reset => "Reset"@,
    }
}

/// The message of a refused transition.
pub open spec fn transition_error_text(s: OrchestratorState, e: OrchestratorEvent) -> Seq<char> {
    "Invalid state transition from "@ + state_debug(s) + " via event "@ + event_debug(e)
}

fn append_state_debug(out: &mut String, s: &OrchestratorState)
    ensures
        final(out)@ == old(out)@ + state_debug(*s),
{
    match s {
        OrchestratorState::Idle => out.append("Idle"),
        OrchestratorState::Fingerprinting => out.append("Fingerprinting"),
        OrchestratorState::Selecting { network_hash } => {
            out.append("Selecting { network_hash: ");
            append_debug_quoted(out, network_hash.as_str());
            out.append(" }");
        },
        OrchestratorState::Executing { network_hash, strategy_id } => {
            out.append("Executing { network_hash: ");
            append_debug_quoted(out, network_hash.as_str());
            out.append(", strategy_id: ");
            append_uuid(out, *strategy_id);
            out.append(" }");
        },
        OrchestratorState::Verifying { network_hash, strategy_id } => {
            out.append("Verifying { network_hash: ");
            append_debug_quoted(out, network_hash.as_str());
            out.append(", strategy_id: ");
            append_uuid(out, *strategy_id);
            out.append(" }");
        },
        OrchestratorState::Evolving { network_hash } => {
            out.append("Evolving { network_hash: ");
            append_debug_quoted(out, network_hash.as_str());
            out.append(" }");
        },
    }
    assert(final(out)@ =~= old(out)@ + state_debug(*s));
}

fn append_event_debug(out: &mut String, e: &OrchestratorEvent)
    ensures
        final(out)@ == old(out)@ + event_debug(*e),
{
    match e {
        OrchestratorEvent::Start => out.append("Start"),
        OrchestratorEvent::FingerprintAcquired { network_hash } => {
            out.append("FingerprintAcquired { network_hash: ");
            append_debug_quoted(out, network_hash.as_str());
            out.append(" }");
        },
        OrchestratorEvent::SelectionMade { strategy_id } => {
            out.append("SelectionMade { strategy_id: ");
            append_uuid(out, *strategy_id);
            out.append(" }");
        },
        OrchestratorEvent::ExecutionStarted => out.append("ExecutionStarted"),
        OrchestratorEvent::VerificationCompleted => out.append("VerificationCompleted"),
        OrchestratorEvent::EvolutionCompleted => out.append("EvolutionCompleted"),
        OrchestratorEvent::Fault { reason } => {
            out.append("Fault { reason: ");
            append_debug_quoted(out, reason.as_str());
            out.append(" }");
        },
        OrchestratorEvent::Reset => out.append("Reset"),
    }
    assert(final(out)@ =~= old(out)@ + event_debug(*e));
}

/// The AI orchestration service (a finite state machine).
pub struct AiOrchestratorService {
    _config: OrchestratorConfig,
    state: OrchestratorState,
}

impl AiOrchestratorService {
    /// A new orchestrator in the Idle state.
    pub fn new(config: OrchestratorConfig) -> (r: Self)
        ensures
            r.spec_state() == OrchestratorState::Idle,
    {
        AiOrchestratorService { _config: config, state: OrchestratorState::Idle }
    }

    pub closed spec fn spec_state(&self) -> OrchestratorState {
        self.state
    }

    /// The current state.
    pub fn get_state(&self) -> (r: OrchestratorState)
        ensures
            r == self.spec_state(),
    {
        self.state.clone()
    }

    /// Handles an event: an allowed event moves to the next state and
    /// returns it; a refused event leaves the state as it is and reports the
    /// state and the event.
    pub fn process_event(&mut self, event: OrchestratorEvent) -> (r: Result<OrchestratorState, AiError>)
        ensures
            match next_state(old(self).spec_state(), event) {
                Some(n) => r == Ok::<OrchestratorState, AiError>(n) && final(self).spec_state() == n,
                None => final(self).spec_state() == old(self).spec_state() && (r matches Err(
                    AiError::Orchestrator(m),
                ) && m@ == transition_error_text(old(self).spec_state(), event)),
            },
    {
        let next = match (&self.state, &event) {
            (_, OrchestratorEvent::Fault { .. }) => Some(OrchestratorState::Idle),
            (_, OrchestratorEvent::Reset) => Some(OrchestratorState::Idle),
            (OrchestratorState::Idle, OrchestratorEvent::Start) => Some(OrchestratorState::Fingerprinting),
            (OrchestratorState::Fingerprinting, OrchestratorEvent::FingerprintAcquired { network_hash }) => Some(
                OrchestratorState::Selecting { network_hash: network_hash.clone() },
            ),
            (OrchestratorState::Selecting { network_hash }, OrchestratorEvent::SelectionMade { strategy_id }) => Some(
                OrchestratorState::Executing {
                    network_hash: network_hash.clone(),
                    strategy_id: *strategy_id,
                },
            ),
            (OrchestratorState::Executing { network_hash, strategy_id }, OrchestratorEvent::ExecutionStarted) => Some(
                OrchestratorState::Verifying {
                    network_hash: network_hash.clone(),
                    strategy_id: *strategy_id,
                },
            ),
            (OrchestratorState::Verifying { network_hash, .. }, OrchestratorEvent::VerificationCompleted) => Some(
                OrchestratorState::Evolving { network_hash: network_hash.clone() },
            ),
            (OrchestratorState::Evolving { .. }, OrchestratorEvent::EvolutionCompleted) => Some(
                OrchestratorState::Idle,
            ),
            _ => None,
        };
        match next {
            Some(n) => {
                self.state = n.clone();
                Ok(n)
            },
            None => {
                let mut msg = String::from_str("Invalid state transition from ");
                append_state_debug(&mut msg, &self.state);
                msg.append(" via event ");
                append_event_debug(&mut msg, &event);
                Err(AiError::Orchestrator(msg))
            },
        }
    }
}

/// A fault or a reset returns the orchestrator to Idle from every state;
/// from Idle only a start (or a fault or reset) is allowed; and one full
/// cycle of the lifecycle, from Idle through fingerprinting, selection,
/// execution, verification and evolution, ends in Idle again.
pub proof fn lifecycle_laws(s: OrchestratorState, e: OrchestratorEvent, reason: String, h: String, id: u128)
    ensures
        next_state(s, OrchestratorEvent::Fault { reason }) == Some(OrchestratorState::Idle),
        next_state(s, OrchestratorEvent::Reset) == Some(OrchestratorState::Idle),
        s == OrchestratorState::Idle && next_state(s, e) is Some ==> (e is Start || e is Fault || e is Reset),
        ({
            let s1 = next_state(OrchestratorState::Idle, OrchestratorEvent::Start).unwrap();
            let s2 = next_state(s1, OrchestratorEvent::FingerprintAcquired { network_hash: h }).unwrap();
            let s3 = next_state(s2, OrchestratorEvent::SelectionMade { strategy_id: id }).unwrap();
            let s4 = next_state(s3, OrchestratorEvent::ExecutionStarted).unwrap();
            let s5 = next_state(s4, OrchestratorEvent::VerificationCompleted).unwrap();
            &&& s2 == OrchestratorState::Selecting { network_hash: h }
            &&& s3 == OrchestratorState::Executing { network_hash: h, strategy_id: id }
            &&& s4 == OrchestratorState::Verifying { network_hash: h, strategy_id: id }
            &&& s5 == OrchestratorState::Evolving { network_hash: h }
            &&& next_state(s5, OrchestratorEvent::EvolutionCompleted) == Some(OrchestratorState::Idle)
        }),
{
}

} // verus!
