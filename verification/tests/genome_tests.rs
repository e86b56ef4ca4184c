use proteus::ai::genome::{DpiEngineType, StrategyGenome, StrategyOrigin};
use proteus::ai::error::AiError;

#[test]
fn test_new_genome_has_unique_id() {
    let a = StrategyGenome::new(DpiEngineType::Zapret, StrategyOrigin::Builtin);
    let b = StrategyGenome::new(DpiEngineType::Zapret, StrategyOrigin::Builtin);
    assert_ne!(a.id, b.id);
}

#[test]
fn test_default_zapret() {
    let g = StrategyGenome::default_zapret();
    assert_eq!(g.engine_type, DpiEngineType::Zapret);
    assert_eq!(g.origin, StrategyOrigin::Builtin);
    assert_eq!(g.desync_mode, "split");
    assert_eq!(g.filter_tcp, "80");
    assert_eq!(g.filter_udp, "443");
}

#[test]
fn test_default_byedpi() {
    let g = StrategyGenome::default_byedpi();
    assert_eq!(g.engine_type, DpiEngineType::ByeDpi);
    assert_eq!(g.disorder_pos, Some("1+s".into()));
}

#[test]
fn test_default_warp() {
    let g = StrategyGenome::default_warp();
    assert_eq!(g.engine_type, DpiEngineType::Warp);
    assert_eq!(g.mtu, Some(1280));
}

#[test]
fn test_engine_type_display() {
    assert_eq!(DpiEngineType::Zapret.to_string(), "zapret");
    assert_eq!(DpiEngineType::ByeDpi.to_string(), "byedpi");
    assert_eq!(DpiEngineType::Warp.to_string(), "warp");
}

#[test]
fn test_strategy_origin_display() {
    assert_eq!(StrategyOrigin::Builtin.to_string(), "builtin");
    assert_eq!(StrategyOrigin::Evolved.to_string(), "evolved");
}

#[test]
fn new_genome_has_default_parameters() {
    let g = StrategyGenome::new(DpiEngineType::ByeDpi, StrategyOrigin::Manual);
    assert_eq!(g.generation, 0);
    assert!(g.parent_ids.is_empty());
    assert_eq!(g.desync_mode, "split");
    assert_eq!(g.display_name, "");
    assert!(g.orchestrator_enabled);
    assert_eq!(g.origin, StrategyOrigin::Manual);
    assert_eq!(StrategyOrigin::Imported.to_string(), "imported");
    assert_eq!(StrategyOrigin::Manual.to_string(), "manual");
}

#[test]
fn clone_keeps_every_field() {
    let mut g = StrategyGenome::default_byedpi();
    g.extra_args.push("--x".to_string());
    g.parent_ids.push(7);
    let c = g.clone();
    assert_eq!(c.id, g.id);
    assert_eq!(c.extra_args, g.extra_args);
    assert_eq!(c.parent_ids, g.parent_ids);
    assert_eq!(c.disorder_pos, g.disorder_pos);
    assert_eq!(c.display_name, "byedpi-default");
}

#[test]
fn ai_error_texts() {
    assert_eq!(AiError::NoCandidates.to_string(), "no candidates available");
    assert_eq!(AiError::Registry("x".into()).to_string(), "registry error: x");
    assert_eq!(AiError::History("h".into()).to_string(), "history error: h");
    assert_eq!(AiError::Evolution("e".into()).to_string(), "evolution error: e");
    assert_eq!(AiError::Serialization("s".into()).to_string(), "serialization error: s");
    assert_eq!(AiError::Orchestrator("o".into()).to_string(), "orchestrator error: o");
}
