use proteus::ai::genome::{DpiEngineType, StrategyGenome, StrategyOrigin};
use proteus::ai::registry::AiStrategyRegistry;

fn make_genome() -> StrategyGenome {
    StrategyGenome::new(DpiEngineType::Zapret, StrategyOrigin::Builtin)
}

#[test]
fn test_registry_empty_initially() {
    let reg = AiStrategyRegistry::in_memory();
    assert!(reg.all_genomes().is_empty());
}

#[test]
fn test_upsert_adds_genome() {
    let mut reg = AiStrategyRegistry::in_memory();
    reg.upsert(make_genome());
    assert_eq!(reg.all_genomes().len(), 1);
}

#[test]
fn test_upsert_updates_existing() {
    let mut reg = AiStrategyRegistry::in_memory();
    let mut g = make_genome();
    let id = g.id;
    g.display_name = "original".into();
    reg.upsert(g);
    let mut g2 = make_genome();
    g2.id = id;
    g2.display_name = "updated".into();
    reg.upsert(g2);
    assert_eq!(reg.all_genomes().len(), 1);
    assert_eq!(reg.get_by_id(&id).unwrap().display_name, "updated");
}

#[test]
fn test_get_by_id() {
    let mut reg = AiStrategyRegistry::in_memory();
    let g = make_genome();
    let id = g.id;
    reg.upsert(g);
    assert!(reg.get_by_id(&id).is_some());
    assert!(reg.get_by_id(&uuid::Uuid::new_v4().as_u128()).is_none());
}

#[test]
fn test_remove_deletes() {
    let mut reg = AiStrategyRegistry::in_memory();
    let g = make_genome();
    let id = g.id;
    reg.upsert(g);
    assert!(reg.remove(&id));
    assert!(reg.get_by_id(&id).is_none());
}

#[test]
fn test_active_genomes_filter() {
    let mut reg = AiStrategyRegistry::in_memory();
    let mut g1 = make_genome();
    g1.orchestrator_enabled = true;
    let mut g2 = make_genome();
    g2.orchestrator_enabled = false;
    reg.upsert(g1);
    reg.upsert(g2);
    assert_eq!(reg.active_genomes().len(), 1);
}

#[test]
fn test_generation_counter() {
    let mut reg = AiStrategyRegistry::in_memory();
    assert_eq!(reg.generation_counter(), 0);
    let gen = reg.increment_generation();
    assert_eq!(gen, 1);
    assert_eq!(reg.generation_counter(), 1);
}

#[test]
fn test_get_by_origin() {
    let mut reg = AiStrategyRegistry::in_memory();
    reg.upsert(make_genome());
    let mut evolved = make_genome();
    evolved.origin = StrategyOrigin::Evolved;
    reg.upsert(evolved);
    assert_eq!(reg.get_by_origin(StrategyOrigin::Builtin).len(), 1);
    assert_eq!(reg.get_by_origin(StrategyOrigin::Evolved).len(), 1);
}

#[test]
fn remove_moves_the_last_genome_into_place() {
    let mut reg = AiStrategyRegistry::in_memory();
    let gs: Vec<StrategyGenome> = (0..3).map(|_| make_genome()).collect();
    let ids: Vec<u128> = gs.iter().map(|g| g.id).collect();
    for g in gs {
        reg.upsert(g);
    }
    assert!(!reg.remove(&12345));
    assert!(reg.remove(&ids[0]));
    let left: Vec<u128> = reg.all_genomes().iter().map(|g| g.id).collect();
    assert_eq!(left, vec![ids[2], ids[1]]);
}

#[test]
fn builtins_load_only_new_ids_and_dirty_tracking() {
    let mut reg = AiStrategyRegistry::in_memory();
    assert!(!reg.is_dirty());
    let a = make_genome();
    let mut a_again = make_genome();
    a_again.id = a.id;
    a_again.display_name = "second".into();
    let b = make_genome();
    reg.load_builtins(vec![a, a_again, b]);
    assert_eq!(reg.all_genomes().len(), 2);
    assert_eq!(reg.all_genomes()[0].display_name, "");
    assert!(reg.is_dirty());
    reg.mark_saved();
    assert!(!reg.is_dirty());
    let stored = AiStrategyRegistry::from_data(vec![make_genome()], 7);
    assert_eq!(stored.generation_counter(), 7);
    assert!(!stored.is_dirty());
}

#[test]
fn lookups_follow_a_removal() {
    let mut reg = AiStrategyRegistry::in_memory();
    let gs: Vec<StrategyGenome> = (0..3).map(|_| make_genome()).collect();
    let ids: Vec<u128> = gs.iter().map(|g| g.id).collect();
    for g in gs {
        reg.upsert(g);
    }
    assert!(reg.remove(&ids[0]));
    assert!(reg.get_by_id(&ids[0]).is_none());
    assert_eq!(reg.get_by_id(&ids[2]).unwrap().id, ids[2]);
    assert_eq!(reg.get_by_id(&ids[1]).unwrap().id, ids[1]);
    let mut again = make_genome();
    again.id = ids[2];
    again.display_name = "moved".into();
    reg.upsert(again);
    assert_eq!(reg.all_genomes().len(), 2);
    assert_eq!(reg.all_genomes()[0].display_name, "moved");
    let stored = AiStrategyRegistry::from_data(vec![make_genome(), make_genome()], 0);
    let first = stored.all_genomes()[0].id;
    assert_eq!(stored.get_by_id(&first).unwrap().id, first);
}
