use proteus::ai::error::AiError;
use proteus::ai::fingerprint::NetworkFingerprint;
use proteus::ai::genome::{DpiEngineType, StrategyGenome, StrategyOrigin};
use proteus::ai::orchestrator::{AiOrchestratorService, OrchestratorConfig, OrchestratorEvent, OrchestratorState};
use proteus::proteus_ai::orchestrator as p;

#[test]
fn orchestrator_test_orchestrator_initial_state() {
    let orchestrator = AiOrchestratorService::new(OrchestratorConfig::default());
    assert_eq!(orchestrator.get_state(), OrchestratorState::Idle);
    let other = p::AiOrchestratorService::new(p::OrchestratorConfig::default());
    assert_eq!(other.state(), p::OrchestratorState::Idle);
}

#[test]
fn test_orchestrator_happy_path() {
    let mut orchestrator = AiOrchestratorService::new(OrchestratorConfig::default());
    let net_hash = "test-hash".to_string();
    let sid = uuid::Uuid::new_v4().as_u128();
    assert_eq!(orchestrator.process_event(OrchestratorEvent::Start).unwrap(), OrchestratorState::Fingerprinting);
    assert_eq!(
        orchestrator.process_event(OrchestratorEvent::FingerprintAcquired { network_hash: net_hash.clone() }).unwrap(),
        OrchestratorState::Selecting { network_hash: net_hash.clone() }
    );
    assert_eq!(
        orchestrator.process_event(OrchestratorEvent::SelectionMade { strategy_id: sid }).unwrap(),
        OrchestratorState::Executing { network_hash: net_hash.clone(), strategy_id: sid }
    );
    assert_eq!(
        orchestrator.process_event(OrchestratorEvent::ExecutionStarted).unwrap(),
        OrchestratorState::Verifying { network_hash: net_hash.clone(), strategy_id: sid }
    );
    assert_eq!(
        orchestrator.process_event(OrchestratorEvent::VerificationCompleted).unwrap(),
        OrchestratorState::Evolving { network_hash: net_hash }
    );
    assert_eq!(orchestrator.process_event(OrchestratorEvent::EvolutionCompleted).unwrap(), OrchestratorState::Idle);
}

#[test]
fn test_orchestrator_invalid_transition() {
    let mut orchestrator = AiOrchestratorService::new(OrchestratorConfig::default());
    let res = orchestrator.process_event(OrchestratorEvent::ExecutionStarted);
    assert!(res.is_err());
    assert!(matches!(res.unwrap_err(), AiError::Orchestrator(_)));
}

#[test]
fn test_orchestrator_fault_recovery() {
    let mut orchestrator = AiOrchestratorService::new(OrchestratorConfig::default());
    orchestrator.process_event(OrchestratorEvent::Start).unwrap();
    assert_eq!(orchestrator.get_state(), OrchestratorState::Fingerprinting);
    orchestrator.process_event(OrchestratorEvent::Fault { reason: "err".into() }).unwrap();
    assert_eq!(orchestrator.get_state(), OrchestratorState::Idle);
}

#[test]
fn refused_transition_names_state_and_event() {
    let mut orchestrator = AiOrchestratorService::new(OrchestratorConfig::default());
    let res = orchestrator.process_event(OrchestratorEvent::SelectionMade { strategy_id: 5 });
    assert_eq!(
        res.unwrap_err(),
        AiError::Orchestrator("Invalid state transition from Idle via event SelectionMade { strategy_id: 00000000-0000-0000-0000-000000000005 }".into())
    );
    orchestrator.process_event(OrchestratorEvent::Start).unwrap();
    orchestrator.process_event(OrchestratorEvent::FingerprintAcquired { network_hash: "h\"1".into() }).unwrap();
    let res = orchestrator.process_event(OrchestratorEvent::Reset);
    assert_eq!(res.unwrap(), OrchestratorState::Idle);
    let res = orchestrator.process_event(OrchestratorEvent::EvolutionCompleted);
    assert_eq!(
        res.unwrap_err(),
        AiError::Orchestrator("Invalid state transition from Idle via event EvolutionCompleted".into())
    );
}

#[test]
fn test_orchestrator_state_transitions() {
    let mut orchestrator = p::AiOrchestratorService::new(p::OrchestratorConfig::default());
    orchestrator.dispatch(p::OrchestratorEvent::BeginFingerprinting).unwrap();
    assert_eq!(orchestrator.state(), p::OrchestratorState::Fingerprinting);
    let fingerprint = NetworkFingerprint::new("test", "test", "1.2.3.4", vec![], "1.2.3.0/24");
    orchestrator.dispatch(p::OrchestratorEvent::CompleteFingerprinting(fingerprint)).unwrap();
    assert_eq!(orchestrator.state(), p::OrchestratorState::Selecting);
    let strategy = StrategyGenome::new(DpiEngineType::Zapret, StrategyOrigin::Builtin);
    orchestrator.dispatch(p::OrchestratorEvent::CompleteSelection(strategy)).unwrap();
    assert_eq!(orchestrator.state(), p::OrchestratorState::Executing);
    orchestrator.dispatch(p::OrchestratorEvent::CompleteExecution).unwrap();
    assert_eq!(orchestrator.state(), p::OrchestratorState::Verifying);
    let result = p::VerificationResult { success: true, score: 100 };
    orchestrator.dispatch(p::OrchestratorEvent::CompleteVerification(result)).unwrap();
    assert_eq!(orchestrator.state(), p::OrchestratorState::Idle);
    assert_eq!(orchestrator.current_fingerprint().unwrap().gateway_ip, "1.2.3.4");
    assert_eq!(orchestrator.current_strategy().unwrap().engine_type, DpiEngineType::Zapret);
}

#[test]
fn test_orchestrator_failure_triggers_evolution() {
    let config = p::OrchestratorConfig { max_failures_before_evolve: 2, auto_evolve: true };
    let mut orchestrator = p::AiOrchestratorService::new(config);
    orchestrator.dispatch(p::OrchestratorEvent::BeginSelection).unwrap();
    let strategy = StrategyGenome::new(DpiEngineType::Zapret, StrategyOrigin::Builtin);
    orchestrator.dispatch(p::OrchestratorEvent::CompleteSelection(strategy)).unwrap();
    orchestrator.dispatch(p::OrchestratorEvent::CompleteExecution).unwrap();
    let fail_result = p::VerificationResult { success: false, score: 0 };
    orchestrator.dispatch(p::OrchestratorEvent::CompleteVerification(fail_result)).unwrap();
    assert_eq!(orchestrator.state(), p::OrchestratorState::Selecting);
    let strategy2 = StrategyGenome::new(DpiEngineType::ByeDpi, StrategyOrigin::Builtin);
    orchestrator.dispatch(p::OrchestratorEvent::CompleteSelection(strategy2)).unwrap();
    orchestrator.dispatch(p::OrchestratorEvent::CompleteExecution).unwrap();
    orchestrator.dispatch(p::OrchestratorEvent::CompleteVerification(fail_result)).unwrap();
    assert_eq!(orchestrator.state(), p::OrchestratorState::Evolving);
    orchestrator.dispatch(p::OrchestratorEvent::CompleteEvolution).unwrap();
    assert_eq!(orchestrator.state(), p::OrchestratorState::Selecting);
}

#[test]
fn refused_dispatch_names_the_state() {
    let mut orchestrator = p::AiOrchestratorService::new(p::OrchestratorConfig::default());
    let err = orchestrator.dispatch(p::OrchestratorEvent::CompleteExecution).unwrap_err();
    assert_eq!(err, AiError::Orchestrator("cannot complete execution from state Idle".into()));
    orchestrator.dispatch(p::OrchestratorEvent::BeginExecution).unwrap();
    let err = orchestrator.dispatch(p::OrchestratorEvent::BeginFingerprinting).unwrap_err();
    assert_eq!(err, AiError::Orchestrator("cannot start fingerprinting from state Executing".into()));
    orchestrator.dispatch(p::OrchestratorEvent::Reset).unwrap();
    assert_eq!(orchestrator.state(), p::OrchestratorState::Idle);
}

fn verify_once(orchestrator: &mut p::AiOrchestratorService, success: bool) -> p::OrchestratorState {
    orchestrator.dispatch(p::OrchestratorEvent::BeginExecution).unwrap();
    orchestrator.dispatch(p::OrchestratorEvent::CompleteExecution).unwrap();
    let result = p::VerificationResult { success, score: if success { 90 } else { 10 } };
    orchestrator.dispatch(p::OrchestratorEvent::CompleteVerification(result)).unwrap();
    orchestrator.state()
}

#[test]
fn evolution_starts_after_failures_in_a_row() {
    let config = p::OrchestratorConfig { max_failures_before_evolve: 3, auto_evolve: true };
    let mut orchestrator = p::AiOrchestratorService::new(config);
    // two failures, then a success clears the count
    assert_eq!(verify_once(&mut orchestrator, false), p::OrchestratorState::Selecting);
    assert_eq!(verify_once(&mut orchestrator, false), p::OrchestratorState::Selecting);
    assert_eq!(verify_once(&mut orchestrator, true), p::OrchestratorState::Idle);
    // two failures, then a reset clears the count
    assert_eq!(verify_once(&mut orchestrator, false), p::OrchestratorState::Selecting);
    assert_eq!(verify_once(&mut orchestrator, false), p::OrchestratorState::Selecting);
    orchestrator.dispatch(p::OrchestratorEvent::Reset).unwrap();
    assert_eq!(orchestrator.state(), p::OrchestratorState::Idle);
    // three in a row start evolution, which restarts the count
    assert_eq!(verify_once(&mut orchestrator, false), p::OrchestratorState::Selecting);
    assert_eq!(verify_once(&mut orchestrator, false), p::OrchestratorState::Selecting);
    assert_eq!(verify_once(&mut orchestrator, false), p::OrchestratorState::Evolving);
    orchestrator.dispatch(p::OrchestratorEvent::CompleteEvolution).unwrap();
    assert_eq!(verify_once(&mut orchestrator, false), p::OrchestratorState::Selecting);
    assert_eq!(verify_once(&mut orchestrator, false), p::OrchestratorState::Selecting);
    assert_eq!(verify_once(&mut orchestrator, false), p::OrchestratorState::Evolving);
}

#[test]
fn without_automatic_evolution_failures_go_back_to_selection() {
    let config = p::OrchestratorConfig { max_failures_before_evolve: 1, auto_evolve: false };
    let mut orchestrator = p::AiOrchestratorService::new(config);
    for _ in 0..4 {
        assert_eq!(verify_once(&mut orchestrator, false), p::OrchestratorState::Selecting);
    }
}
