//! AiOrchestratorService: the DPI bypass lifecycle as a state machine, with
//! the current fingerprint, the current strategy and a failure counter that
//! triggers evolution.

use vstd::prelude::*;
use crate::ai::error::AiError;
use crate::ai::fingerprint::{FingerprintView, NetworkFingerprint};
use crate::ai::genome::{GenomeView, StrategyGenome};

verus! {

/// Orchestrator states.
#[derive(Debug, Clone, Copy, PartialEq, Eq, Structural)]
pub enum OrchestratorState {
    Idle,
    Fingerprinting,
    Selecting,
    Executing,
    Verifying,
    Evolving,
}

/// Debug text of a state: the variant's name.
pub open spec fn state_name(s: OrchestratorState) -> Seq<char> {
    match s {
        OrchestratorState::Idle => "Idle"@,
        OrchestratorState::Fingerprinting => "Fingerprinting"@,
        OrchestratorState::Selecting => "Selecting"@,
        OrchestratorState::Executing => "Executing"@,
        OrchestratorState::Verifying => "Verifying"@,
        OrchestratorState::Evolving => "Evolving"@,
    }
}

fn state_text(s: OrchestratorState) -> (r: &'static str)
    ensures
        r@ == state_name(s),
{
    match s {
        OrchestratorState::Idle => "Idle",
        OrchestratorState::Fingerprinting => "Fingerprinting",
        OrchestratorState::Selecting => "Selecting",
        OrchestratorState::Executing => "Executing",
        OrchestratorState::Verifying => "Verifying",
        OrchestratorState::Evolving => "Evolving",
    }
}

/// Orchestrator configuration.
#[derive(Debug, Clone, Copy, PartialEq, Eq)]
pub struct OrchestratorConfig {
    pub max_failures_before_evolve: u32,
    pub auto_evolve: bool,
}

impl Default for OrchestratorConfig {
    fn default() -> (r: Self)
        ensures
            r.max_failures_before_evolve == 3,
            r.auto_evolve,
    {
        OrchestratorConfig { max_failures_before_evolve: 3, auto_evolve: true }
    }
}

/// Outcome of a verification: success and score.
#[derive(Debug, Clone, Copy, PartialEq, Eq)]
pub struct VerificationResult {
    pub success: bool,
    pub score: i32,
}

/// Orchestrator events.
#[derive(Debug)]
pub enum OrchestratorEvent {
    BeginFingerprinting,
    CompleteFingerprinting(NetworkFingerprint),
    BeginSelection,
    CompleteSelection(StrategyGenome),
    BeginExecution,
    CompleteExecution,
    CompleteVerification(VerificationResult),
    CompleteEvolution,
    Reset,
}

/// Model of the orchestrator.
pub struct OrchestratorView {
    pub config: OrchestratorConfig,
    pub state: OrchestratorState,
    pub fingerprint: Option<FingerprintView>,
    pub strategy: Option<GenomeView>,
    pub failures: u32,
}

/// The orchestrator.
pub struct AiOrchestratorService {
    config: OrchestratorConfig,
    state: OrchestratorState,
    current_fingerprint: Option<NetworkFingerprint>,
    current_strategy: Option<StrategyGenome>,
    failure_count: u32,
}

pub open spec fn opt_fingerprint_view(o: Option<NetworkFingerprint>) -> Option<FingerprintView> {
    match o {
        Some(f) => Some(f@),
        None => None,
    }
}

pub open spec fn opt_genome_view(o: Option<StrategyGenome>) -> Option<GenomeView> {
    match o {
        Some(g) => Some(g@),
        None => None,
    }
}

impl View for AiOrchestratorService {
    type V = OrchestratorView;

    closed spec fn view(&self) -> OrchestratorView {
        OrchestratorView {
            config: self.config,
            state: self.state,
            fingerprint: opt_fingerprint_view(self.current_fingerprint),
            strategy: opt_genome_view(self.current_strategy),
            failures: self.failure_count,
        }
    }
}

/// The message of a refused event.
pub open spec fn refusal_text(what: Seq<char>, s: OrchestratorState) -> Seq<char> {
    "cannot "@ + what + " from state "@ + state_name(s)
}

/// Whether an event is allowed in a state, and what a refusal says.
pub open spec fn refusal(s: OrchestratorState, e: OrchestratorEvent) -> Option<Seq<char>> {
    match e {
        OrchestratorEvent::BeginFingerprinting => if s == OrchestratorState::Idle
            || s == OrchestratorState::Verifying || s == OrchestratorState::Evolving {
            None
        } else {
            Some(refusal_text("start fingerprinting"@, s))
        },
        OrchestratorEvent::CompleteFingerprinting(_) => if s == OrchestratorState::Fingerprinting {
            None
        } else {
            Some(refusal_text("complete fingerprinting"@, s))
        },
        OrchestratorEvent::BeginSelection => if s == OrchestratorState::Fingerprinting || s
            == OrchestratorState::Idle || s == OrchestratorState::Verifying || s
            == OrchestratorState::Evolving {
            None
        } else {
            Some(refusal_text("start selection"@, s))
        },
        OrchestratorEvent::CompleteSelection(_) => if s == OrchestratorState::Selecting {
            None
        } else {
            Some(refusal_text("complete selection"@, s))
        },
        OrchestratorEvent::BeginExecution => if s == OrchestratorState::Selecting || s
            == OrchestratorState::Idle {
            None
        } else {
            Some(refusal_text("start execution"@, s))
        },
        OrchestratorEvent::CompleteExecution => if s == OrchestratorState::Executing {
            None
        } else {
            Some(refusal_text("complete execution"@, s))
        },
        OrchestratorEvent::CompleteVerification(_) => if s == OrchestratorState::Verifying {
            None
        } else {
            Some(refusal_text("complete verification"@, s))
        },
        OrchestratorEvent::CompleteEvolution => if s == OrchestratorState::Evolving {
            None
        } else {
            Some(refusal_text("complete evolution"@, s))
        },
        OrchestratorEvent::Reset => None,
    }
}

/// Whether `dispatch` takes event `e` in `v`: a failed verification needs
/// room in the failure counter; every other event is always taken.
pub open spec fn admits(v: OrchestratorView, e: OrchestratorEvent) -> bool {
    (e matches OrchestratorEvent::CompleteVerification(res) && !res.success && v.state
        == OrchestratorState::Verifying) ==> v.failures < u32::MAX
}

/// The orchestrator after an allowed event.
pub open spec fn after_event(v: OrchestratorView, e: OrchestratorEvent) -> OrchestratorView {
    match e {
        OrchestratorEvent::BeginFingerprinting => OrchestratorView {
            state: OrchestratorState::Fingerprinting,
            ..v
        },
        OrchestratorEvent::CompleteFingerprinting(f) => OrchestratorView {
            state: OrchestratorState::Selecting,
            fingerprint: Some(f@),
            ..v
        },
        OrchestratorEvent::BeginSelection => OrchestratorView {
            state: OrchestratorState::Selecting,
            ..v
        },
        OrchestratorEvent::CompleteSelection(g) => OrchestratorView {
            state: OrchestratorState::Executing,
            strategy: Some(g@),
            ..v
        },
        OrchestratorEvent::BeginExecution => OrchestratorView {
            state: OrchestratorState::Executing,
            ..v
        },
        OrchestratorEvent::CompleteExecution => OrchestratorView {
            state: OrchestratorState::Verifying,
            ..v
        },
        OrchestratorEvent::CompleteVerification(result) => if result.success {
            OrchestratorView { state: OrchestratorState::Idle, failures: 0, ..v }
        } else if v.config.auto_evolve && v.failures + 1 >= v.config.max_failures_before_evolve {
            OrchestratorView { state: OrchestratorState::Evolving, failures: 0, ..v }
        } else {
            OrchestratorView {
                state: OrchestratorState::Selecting,
                failures: (v.failures + 1) as u32,
                ..v
            }
        },
        OrchestratorEvent::CompleteEvolution => OrchestratorView {
            state: OrchestratorState::Selecting,
            ..v
        },
        OrchestratorEvent::Reset => OrchestratorView {
            state: OrchestratorState::Idle,
            failures: 0,
            ..v
        },
    }
}

fn refused(what: &str, s: OrchestratorState) -> (r: AiError)
    ensures
        r matches AiError::Orchestrator(m) && m@ == refusal_text(what@, s),
{
    let mut m = String::from_str("cannot ");
    m.append(what);
    m.append(" from state ");
    m.append(state_text(s));
    AiError::Orchestrator(m)
}

impl AiOrchestratorService {
    /// A new orchestrator: Idle, no fingerprint, no strategy, no failures.
    pub fn new(config: OrchestratorConfig) -> (r: Self)
        ensures
            r@ == fresh_view(config),
    {
        AiOrchestratorService {
            config,
            state: OrchestratorState::Idle,
            current_fingerprint: None,
            current_strategy: None,
            failure_count: 0,
        }
    }

    /// The current state.
    pub fn state(&self) -> (r: OrchestratorState)
        ensures
            r == self@.state,
    {
        self.state
    }

    /// Handles an event. A refused event leaves the orchestrator unchanged
    /// and names the current state; an allowed one moves as `after_event`
    /// says.
    pub fn dispatch(&mut self, event: OrchestratorEvent) -> (r: Result<(), AiError>)
        requires
            admits(old(self)@, event),
        ensures
            match refusal(old(self)@.state, event) {
                Some(m) => final(self)@ == old(self)@ && (r matches Err(AiError::Orchestrator(t)) && t@ == m),
                None => r is Ok && final(self)@ == after_event(old(self)@, event),
            },
    {
        match event {
            OrchestratorEvent::BeginFingerprinting => {
                if self.state != OrchestratorState::Idle && self.state != OrchestratorState::Verifying
                    && self.state != OrchestratorState::Evolving {
                    return Err(refused("start fingerprinting", self.state));
                }
                self.state = OrchestratorState::Fingerprinting;
            },
            OrchestratorEvent::CompleteFingerprinting(fingerprint) => {
                if self.state != OrchestratorState::Fingerprinting {
                    return Err(refused("complete fingerprinting", self.state));
                }
                self.current_fingerprint = Some(fingerprint);
                self.state = OrchestratorState::Selecting;
            },
            OrchestratorEvent::BeginSelection => {
                if self.state != OrchestratorState::Fingerprinting && self.state != OrchestratorState::Idle
                    && self.state != OrchestratorState::Verifying && self.state
                    != OrchestratorState::Evolving {
                    return Err(refused("start selection", self.state));
                }
                self.state = OrchestratorState::Selecting;
            },
            OrchestratorEvent::CompleteSelection(strategy) => {
                if self.state != OrchestratorState::Selecting {
                    return Err(refused("complete selection", self.state));
                }
                self.current_strategy = Some(strategy);
                self.state = OrchestratorState::Executing;
            },
            OrchestratorEvent::BeginExecution => {
                if self.state != OrchestratorState::Selecting && self.state != OrchestratorState::Idle {
                    return Err(refused("start execution", self.state));
                }
                self.state = OrchestratorState::Executing;
            },
            OrchestratorEvent::CompleteExecution => {
                if self.state != OrchestratorState::Executing {
                    return Err(refused("complete execution", self.state));
                }
                self.state = OrchestratorState::Verifying;
            },
            OrchestratorEvent::CompleteVerification(result) => {
                if self.state != OrchestratorState::Verifying {
                    return Err(refused("complete verification", self.state));
                }
                if result.success {
                    self.failure_count = 0;
                    self.state = OrchestratorState::Idle;
                } else {
                    self.failure_count = self.failure_count + 1;
                    if self.config.auto_evolve && self.failure_count
                        >= self.config.max_failures_before_evolve {
                        self.state = OrchestratorState::Evolving;
                        self.failure_count = 0;
                    } else {
                        self.state = OrchestratorState::Selecting;
                    }
                }
            },
            OrchestratorEvent::CompleteEvolution => {
                if self.state != OrchestratorState::Evolving {
                    return Err(refused("complete evolution", self.state));
                }
                self.state = OrchestratorState::Selecting;
            },
            OrchestratorEvent::Reset => {
                self.state = OrchestratorState::Idle;
                self.failure_count = 0;
            },
        }
        Ok(())
    }

    /// The fingerprint of the last completed fingerprinting, if any.
    pub fn current_fingerprint(&self) -> (r: Option<NetworkFingerprint>)
        ensures
            opt_fingerprint_view(r) == self@.fingerprint,
    {
        match &self.current_fingerprint {
            Some(f) => Some(f.clone()),
            None => None,
        }
    }

    /// The strategy of the last completed selection, if any.
    pub fn current_strategy(&self) -> (r: Option<StrategyGenome>)
        ensures
            opt_genome_view(r) == self@.strategy,
    {
        match &self.current_strategy {
            Some(g) => Some(g.clone()),
            None => None,
        }
    }
}

/// With automatic evolution and a threshold of at least one, the failure
/// counter stays below the threshold across every allowed event; a
/// successful verification clears it and returns to Idle; the failure that
/// reaches the threshold starts evolution; a reset is always allowed and
/// returns to Idle with no failures, keeping fingerprint and strategy.
pub proof fn failure_counter_laws(v: OrchestratorView, e: OrchestratorEvent)
    requires
        v.config.auto_evolve,
        v.config.max_failures_before_evolve >= 1,
        v.failures < v.config.max_failures_before_evolve,
    ensures
        refusal(v.state, e) is None ==> after_event(v, e).failures < v.config.max_failures_before_evolve,
        (e matches OrchestratorEvent::CompleteVerification(r) && r.success && v.state == OrchestratorState::Verifying)
            ==> after_event(v, e).state == OrchestratorState::Idle && after_event(v, e).failures == 0,
        (e matches OrchestratorEvent::CompleteVerification(r) && !r.success && v.state == OrchestratorState::Verifying
            && v.failures + 1 == v.config.max_failures_before_evolve) ==> after_event(v, e).state
            == OrchestratorState::Evolving && after_event(v, e).failures == 0,
        refusal(v.state, OrchestratorEvent::Reset) is None,
        after_event(v, OrchestratorEvent::Reset) == (OrchestratorView {
            state: OrchestratorState::Idle,
            failures: 0,
            ..v
        }),
{
}

/// A fresh orchestrator's view under `cfg` (see `new`).
pub open spec fn fresh_view(cfg: OrchestratorConfig) -> OrchestratorView {
    OrchestratorView {
        config: cfg,
        state: OrchestratorState::Idle,
        fingerprint: None,
        strategy: None,
        failures: 0,
    }
}

/// The orchestrator after dispatching `events` in order from `v`, each of
/// them taken and allowed; `None` when one is refused or not taken.
pub open spec fn run(v: OrchestratorView, events: Seq<OrchestratorEvent>) -> Option<OrchestratorView>
    decreases events.len(),
{
    if events.len() == 0 {
        Some(v)
    } else {
        match run(v, events.drop_last()) {
            Some(w) => if refusal(w.state, events.last()) is None && admits(w, events.last()) {
                Some(after_event(w, events.last()))
            } else {
                None
            },
            None => None,
        }
    }
}

/// The failed verifications in a row at the end of `events` under `cfg`:
/// counted since the latest successful verification, reset, or failure that
/// started evolution (automatic evolution, the threshold reached).
pub open spec fn failed_in_row(cfg: OrchestratorConfig, events: Seq<OrchestratorEvent>) -> nat
    decreases events.len(),
{
    if events.len() == 0 {
        0
    } else {
        let p = failed_in_row(cfg, events.drop_last());
        match events.last() {
            OrchestratorEvent::CompleteVerification(r) => if r.success {
                0
            } else if cfg.auto_evolve && p + 1 >= cfg.max_failures_before_evolve {
                0
            } else {
                p + 1
            },
            OrchestratorEvent::Reset => 0,
            _ => p,
        }
    }
}

/// Over every run of allowed events from a fresh orchestrator, the failure
/// counter is the number of failed verifications in a row.
proof fn lemma_run_failures(cfg: OrchestratorConfig, events: Seq<OrchestratorEvent>)
    requires
        run(fresh_view(cfg), events) is Some,
    ensures
        run(fresh_view(cfg), events) matches Some(v) && v.config == cfg && v.failures == failed_in_row(cfg, events),
    decreases events.len(),
{
    if events.len() > 0 {
        lemma_run_failures(cfg, events.drop_last());
    }
}

/// After any run of allowed events from a fresh orchestrator, with `k` one
/// more than the failed verifications in a row: in Verifying, a verification
/// is allowed; a success returns to Idle; a failure starts evolution when
/// evolution is automatic and `k` reaches the threshold, and otherwise goes
/// back to Selecting. From every state a reset is allowed, returns to Idle
/// and restarts the count.
pub proof fn evolution_after_failures_in_row(
    cfg: OrchestratorConfig,
    events: Seq<OrchestratorEvent>,
    result: VerificationResult,
)
    requires
        run(fresh_view(cfg), events) is Some,
    ensures
        (run(fresh_view(cfg), events) matches Some(v) && {
            let k = failed_in_row(cfg, events) + 1;
            let e = OrchestratorEvent::CompleteVerification(result);
            &&& v.failures == k - 1
            &&& v.state == OrchestratorState::Verifying ==> refusal(v.state, e) is None
            &&& (v.state == OrchestratorState::Verifying && admits(v, e)) ==> after_event(v, e).state == (
            if result.success {
                OrchestratorState::Idle
            } else if cfg.auto_evolve && k >= cfg.max_failures_before_evolve {
                OrchestratorState::Evolving
            } else {
                OrchestratorState::Selecting
            })
            &&& refusal(v.state, OrchestratorEvent::Reset) is None
            &&& after_event(v, OrchestratorEvent::Reset).state == OrchestratorState::Idle
            &&& failed_in_row(cfg, events.push(OrchestratorEvent::Reset)) == 0
        }),
{
    lemma_run_failures(cfg, events);
    let rs = events.push(OrchestratorEvent::Reset);
    assert(rs.drop_last() =~= events);
}

/// Every event that the orchestrator refuses is taken by `dispatch`,
/// whatever the failure counter holds; so on every refused event `dispatch`
/// answers with the refusal and leaves state, fingerprint, strategy and
/// failure count as they were.
pub proof fn refusals_are_admitted(v: OrchestratorView, e: OrchestratorEvent)
    requires
        refusal(v.state, e) is Some,
    ensures
        admits(v, e),
{
}

} // verus!
