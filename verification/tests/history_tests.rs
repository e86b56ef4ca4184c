use proteus::ai::genome::{DpiEngineType, StrategyGenome, StrategyOrigin};
use proteus::ai::history::{AiHistoryStore, HistoryRecord};

fn make_record(score: i32) -> HistoryRecord {
    let g = StrategyGenome::new(DpiEngineType::Zapret, StrategyOrigin::Builtin);
    HistoryRecord::new(g.id, "test-net", score, 100.0f64.to_bits())
}

#[test]
fn test_empty_store() {
    let store = AiHistoryStore::in_memory();
    assert!(store.is_empty());
    assert_eq!(store.len(), 0);
}

#[test]
fn test_append_record() {
    let mut store = AiHistoryStore::in_memory();
    let record = make_record(80);
    store.append(record).unwrap();
    assert_eq!(store.len(), 1);
}

#[test]
fn test_for_network() {
    let mut store = AiHistoryStore::in_memory();
    let mut r1 = make_record(80);
    r1.network_hash = "net-a".into();
    let mut r2 = make_record(30);
    r2.network_hash = "net-b".into();
    store.append(r1).unwrap();
    store.append(r2).unwrap();
    assert_eq!(store.for_network("net-a").len(), 1);
    assert_eq!(store.for_network("net-b").len(), 1);
}

#[test]
fn test_outcomes() {
    let mut store = AiHistoryStore::in_memory();
    store.append(make_record(80)).unwrap();
    store.append(make_record(30)).unwrap();
    let outcomes = store.outcomes();
    assert_eq!(outcomes.len(), 2);
    assert!(outcomes.iter().any(|(_, s)| *s == 80));
    assert!(outcomes.iter().any(|(_, s)| *s == 30));
}

#[test]
fn test_clear() {
    let mut store = AiHistoryStore::in_memory();
    store.append(make_record(80)).unwrap();
    store.clear().unwrap();
    assert!(store.is_empty());
}

#[test]
fn test_for_genome_on_network() {
    let mut store = AiHistoryStore::in_memory();
    let g1 = StrategyGenome::new(DpiEngineType::Zapret, StrategyOrigin::Builtin);
    let g2 = StrategyGenome::new(DpiEngineType::ByeDpi, StrategyOrigin::Builtin);
    store.append(HistoryRecord::new(g1.id, "net-a", 80, 50.0f64.to_bits())).unwrap();
    store.append(HistoryRecord::new(g1.id, "net-b", 30, 200.0f64.to_bits())).unwrap();
    store.append(HistoryRecord::new(g2.id, "net-a", 95, 100.0f64.to_bits())).unwrap();
    assert_eq!(store.for_genome_on_network(&g1.id, "net-a").len(), 1);
    assert_eq!(store.for_genome_on_network(&g1.id, "net-b").len(), 1);
    assert_eq!(store.for_genome_on_network(&g2.id, "net-a").len(), 1);
    assert_eq!(store.for_genome_on_network(&g2.id, "net-b").len(), 0);
}

#[test]
fn test_rotation_keeps_recent() {
    let mut store = AiHistoryStore::with_records(Vec::new(), 10);
    for i in 0..20 {
        store
            .append(HistoryRecord::new(uuid::Uuid::new_v4().as_u128(), &format!("net-{i}"), i, (i as f64).to_bits()))
            .unwrap();
    }
    assert!(store.len() <= 10);
}

#[test]
fn rotation_keeps_the_most_recent_half() {
    let mut store = AiHistoryStore::with_records(Vec::new(), 10);
    for i in 0..11 {
        store.append(HistoryRecord::new(1, &format!("net-{i}"), i, 0)).unwrap();
    }
    // the eleventh append exceeds 10: the last 5 stay
    assert_eq!(store.len(), 5);
    let nets: Vec<&str> = store.all().iter().map(|r| r.network_hash.as_str()).collect();
    assert_eq!(nets, vec!["net-6", "net-7", "net-8", "net-9", "net-10"]);
}

#[test]
fn queries_keep_order_and_values() {
    let mut store = AiHistoryStore::in_memory();
    store.append(HistoryRecord::new(1, "a", 10, 1.5f64.to_bits())).unwrap();
    store.append(HistoryRecord::new(2, "b", 20, 2.5f64.to_bits())).unwrap();
    store.append(HistoryRecord::new(1, "b", 30, 3.5f64.to_bits())).unwrap();
    assert_eq!(store.outcomes(), vec![(1, 10), (2, 20), (1, 30)]);
    assert_eq!(store.outcomes_for_network("b"), vec![(2, 20), (1, 30)]);
    let with_latency = store.outcomes_with_latency();
    assert_eq!(f64::from_bits(with_latency[2].2), 3.5);
    let g1: Vec<i32> = store.for_genome(&1).iter().map(|r| r.score).collect();
    assert_eq!(g1, vec![10, 30]);
}

#[test]
fn metadata_sets_and_replaces() {
    let r = HistoryRecord::new(1, "n", 1, 0)
        .with_metadata("strategy", "a")
        .with_metadata("error", "x")
        .with_metadata("strategy", "b");
    assert_eq!(r.metadata, vec![("strategy".to_string(), "b".to_string()), ("error".to_string(), "x".to_string())]);
    let c = r.clone();
    assert_eq!(c.metadata, r.metadata);
}
