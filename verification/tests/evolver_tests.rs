use proteus::ai::evolver::{
    crossover_with, is_valid, name_child, normalize, outcome_counts, pool_outcome_counts, rank_indices, StrategyEvolver,
    CROSSOVER_COINS,
};
use proteus::ai::genome::{DpiEngineType, StrategyGenome, StrategyOrigin};
use proteus::ai::signature::exists_in;

fn make_genome(desync_mode: &str, engine: DpiEngineType) -> StrategyGenome {
    let mut g = StrategyGenome::new(engine, StrategyOrigin::Builtin);
    g.desync_mode = desync_mode.into();
    g
}

/// The Wilson lower bound (95%) of a trial history, as the ranking key of a
/// genome: the bits of a non-negative double order as the double does.
fn wilson_key(successes: u64, trials: u64) -> u64 {
    if trials == 0 {
        return 0.0f64.to_bits();
    }
    let z = 1.96f64;
    let n = trials as f64;
    let p = successes as f64 / n;
    let z2 = z * z;
    let denom = 1.0 + z2 / n;
    let center = p + z2 / (2.0 * n);
    let margin = z * ((p * (1.0 - p) + z2 / (4.0 * n)) / n).sqrt();
    ((center - margin) / denom).clamp(0.0, 1.0).to_bits()
}

fn scores(pool: &[StrategyGenome], outcomes: &[(u128, i32)]) -> Vec<u64> {
    pool_outcome_counts(pool, outcomes).iter().map(|(s, n)| wilson_key(*s, *n)).collect()
}

#[test]
fn test_evolve_returns_child() {
    let mut evolver = StrategyEvolver::new(10, true);
    let pool = vec![make_genome("split", DpiEngineType::Zapret), make_genome("fake", DpiEngineType::Zapret)];
    let outcomes = vec![(pool[0].id, 80), (pool[1].id, 20)];
    let child = evolver.evolve(&pool, &scores(&pool, &outcomes)).unwrap();
    assert_eq!(child.origin, StrategyOrigin::Evolved);
    assert!(child.generation >= 1);
    assert!(!child.display_name.is_empty());
}

#[test]
fn test_evolve_requires_2_genomes() {
    let mut evolver = StrategyEvolver::new(10, true);
    let pool = vec![make_genome("split", DpiEngineType::Zapret)];
    let result = evolver.evolve(&pool, &scores(&pool, &[]));
    assert!(result.is_err());
}

#[test]
fn test_crossover_mixes_params() {
    let mut evolver = StrategyEvolver::new(10, true);
    let a = make_genome("split", DpiEngineType::Zapret);
    let b = make_genome("fake", DpiEngineType::ByeDpi);
    let child = evolver.crossover(&a, &b);
    assert!(child.engine_type == DpiEngineType::Zapret || child.engine_type == DpiEngineType::ByeDpi);
    assert_eq!(child.parent_ids.len(), 2);
}

#[test]
fn test_mutate_zapret_changes_param() {
    let mut evolver = StrategyEvolver::new(10, true);
    let mut g = make_genome("split", DpiEngineType::Zapret);
    evolver.mutate(&mut g);
    assert!(true);
}

#[test]
fn test_mutate_byedpi_changes_param() {
    let mut evolver = StrategyEvolver::new(10, true);
    let mut g = make_genome("split", DpiEngineType::ByeDpi);
    evolver.mutate(&mut g);
    assert!(true);
}

#[test]
fn test_mutate_warp_changes_param() {
    let mut evolver = StrategyEvolver::new(10, true);
    let mut g = make_genome("split", DpiEngineType::Warp);
    evolver.mutate(&mut g);
    assert!(true);
}

#[test]
fn test_gc_removes_weak_evolved() {
    let evolver = StrategyEvolver::new(2, true);
    let mut pool = vec![make_genome("split", DpiEngineType::Zapret)];
    let outcomes: Vec<(u128, i32)> = vec![];
    let s = scores(&pool, &outcomes);
    let removed = evolver.gc_evolved(&mut pool, &s);
    assert!(removed.is_empty());
}

#[test]
fn test_is_valid_checks_desync_mode() {
    let mut g = make_genome("split", DpiEngineType::Zapret);
    assert!(is_valid(&g));
    g.desync_mode = "".into();
    assert!(!is_valid(&g));
}

#[test]
fn test_normalize_sets_split_pos() {
    let mut g = make_genome("split", DpiEngineType::Zapret);
    g.split_pos_semantic = Some("host".into());
    g.split_pos = Some(42);
    normalize(&mut g);
    assert_eq!(g.split_pos, None);
    assert_eq!(g.split_pos_semantic, Some("host".into()));
}

#[test]
fn test_pick_delta_not_zero() {
    let mut evolver = StrategyEvolver::new(10, true);
    let mut non_zero = 0;
    for _ in 0..100 {
        let d = evolver.pick_delta();
        if d != 0 {
            non_zero += 1;
        }
        assert!([1, 2, 4, 8, -1, -2, -4, -8].contains(&d));
    }
    assert!(non_zero > 0);
}

#[test]
fn evolved_child_is_new_to_the_pool_and_named() {
    let mut evolver = StrategyEvolver::new(10, true);
    let pool = vec![
        make_genome("split", DpiEngineType::Zapret),
        make_genome("fake", DpiEngineType::ByeDpi),
        make_genome("disorder", DpiEngineType::Zapret),
    ];
    let s = vec![3, 2, 1];
    for _ in 0..20 {
        let child = evolver.evolve(&pool, &s).unwrap();
        assert!(!exists_in(&child, &pool));
        assert!(child.display_name.starts_with(&format!("ev-{}-", child.generation)));
        assert_eq!(child.generation, 1);
        assert_eq!(child.parent_ids.len(), 2);
        assert!(pool.iter().any(|g| g.id == child.parent_ids[0]));
        assert!(pool.iter().any(|g| g.id == child.parent_ids[1]));
        assert_ne!(child.parent_ids[0], child.parent_ids[1]);
        let num: u32 = child.display_name.rsplit('-').next().unwrap().parse().unwrap();
        assert!((1000..9999).contains(&num));
    }
}

#[test]
fn outcome_counts_are_exact() {
    let outcomes = vec![(1u128, 80), (2, 10), (1, 49), (1, 50), (3, 100)];
    assert_eq!(outcome_counts(1, &outcomes), (2, 3));
    assert_eq!(outcome_counts(2, &outcomes), (0, 1));
    assert_eq!(outcome_counts(9, &outcomes), (0, 0));
}

#[test]
fn ranking_is_a_stable_descending_sort() {
    let scores = vec![5u64, 9, 5, 1, 9];
    let r = rank_indices(&scores, &vec![0, 1, 2, 3, 4]);
    assert_eq!(r, vec![1, 4, 0, 2, 3]);
}

#[test]
fn gc_keeps_elite_and_others_and_removes_the_weakest() {
    // limit 4, elite 2: six evolved genomes, one builtin
    let evolver = StrategyEvolver::new(4, true);
    let mut pool = Vec::new();
    for i in 0..6 {
        let mut g = make_genome("split", DpiEngineType::Zapret);
        g.origin = StrategyOrigin::Evolved;
        g.display_name = format!("ev{}", i);
        pool.push(g);
    }
    pool.push(make_genome("fake", DpiEngineType::Zapret));
    let scores = vec![10u64, 60, 30, 50, 20, 40, 0];
    let removed = evolver.gc_evolved(&mut pool, &scores);
    // elite: ev1 (60), ev3 (50); room: 4 - 1 - 2 = 1 more: ev5 (40)
    let kept: Vec<&str> = pool.iter().map(|g| g.display_name.as_str()).collect();
    assert_eq!(kept, vec!["ev1", "ev3", "ev5", ""]);
    let gone: Vec<&str> = removed.iter().map(|g| g.display_name.as_str()).collect();
    assert_eq!(gone, vec!["ev2", "ev4", "ev0"]);
}

#[test]
fn gc_within_limit_puts_evolved_first() {
    let evolver = StrategyEvolver::new(10, false);
    let mut pool = vec![make_genome("a", DpiEngineType::Zapret)];
    let mut e = make_genome("b", DpiEngineType::Zapret);
    e.origin = StrategyOrigin::Evolved;
    pool.push(e);
    let removed = evolver.gc_evolved(&mut pool, &[0, 0]);
    assert!(removed.is_empty());
    assert_eq!(pool[0].desync_mode, "b");
    assert_eq!(pool[1].desync_mode, "a");
}

#[test]
fn mutations_by_roll() {
    let mut evolver = StrategyEvolver::new(10, true);
    let mut g = make_genome("split", DpiEngineType::Zapret);
    evolver.mutate_zapret(&mut g, 11);
    assert_eq!(g.engine_type, DpiEngineType::ByeDpi);
    assert_eq!(g.disorder_pos, Some("1+s".into()));
    evolver.mutate_byedpi(&mut g, 6);
    assert_eq!(g.md5sig, Some(false));
    evolver.mutate_byedpi(&mut g, 12);
    assert!(g.tlsminor == Some(2) || g.tlsminor == Some(3));
    let mut w = make_genome("split", DpiEngineType::Warp);
    evolver.mutate_warp(&mut w, 2);
    assert!([Some(1260), Some(1280), Some(1300)].contains(&w.mtu));
    evolver.mutate_warp(&mut w, 6);
    let parts: Vec<u32> = w.reserved.as_ref().unwrap().split(',').map(|p| p.parse().unwrap()).collect();
    assert_eq!(parts.len(), 3);
    assert!(parts.iter().all(|p| *p < 256));
    let mut t = make_genome("split", DpiEngineType::Zapret);
    t.fake_ttl = Some(47);
    evolver.mutate_zapret(&mut t, 2);
    let v = t.fake_ttl.unwrap();
    assert!((39..=48).contains(&v));
}

fn distinct_parents() -> (StrategyGenome, StrategyGenome) {
    let mut a = make_genome("split", DpiEngineType::Zapret);
    a.generation = 2;
    a.filter_tcp = "443".into();
    a.split_pos = Some(1);
    a.fake_ttl = Some(5);
    a.auto_ttl = true;
    a.hosts = Some("a.txt".into());
    a.mtu = Some(1280);
    a.reserved = Some("r-a".into());
    a.extra_args = vec!["--a".into()];
    let mut b = make_genome("fake", DpiEngineType::ByeDpi);
    b.generation = 4;
    b.filter_tcp = "80".into();
    b.split_pos = Some(7);
    b.fake_ttl = None;
    b.auto_ttl = false;
    b.hosts = None;
    b.mtu = Some(1420);
    b.reserved = None;
    b.extra_args = vec!["--b1".into(), "--b2".into()];
    (a, b)
}

#[test]
fn crossover_with_heads_takes_every_parameter_from_the_first_parent() {
    let (a, b) = distinct_parents();
    let c = crossover_with(&a, &b, &[true; CROSSOVER_COINS], 77, 1234);
    assert_eq!(c.id, 77);
    assert_eq!(c.created_at, 1234);
    assert_eq!(c.parent_ids, vec![a.id, b.id]);
    assert_eq!(c.generation, 5);
    assert_eq!(c.origin, StrategyOrigin::Evolved);
    assert_eq!(c.engine_type, DpiEngineType::Zapret);
    assert_eq!(c.desync_mode, "split");
    assert_eq!(c.filter_tcp, "443");
    assert_eq!(c.split_pos, Some(1));
    assert_eq!(c.fake_ttl, Some(5));
    assert!(c.auto_ttl);
    assert_eq!(c.hosts, Some("a.txt".to_string()));
    assert_eq!(c.mtu, Some(1280));
    assert_eq!(c.reserved, Some("r-a".to_string()));
    assert_eq!(c.extra_args, vec!["--a".to_string()]);
    assert_eq!(c.display_name, "");
    assert!(c.orchestrator_enabled);
}

#[test]
fn crossover_with_tails_takes_every_parameter_from_the_second_parent() {
    let (a, b) = distinct_parents();
    let c = crossover_with(&a, &b, &[false; CROSSOVER_COINS], 78, 99);
    assert_eq!(c.engine_type, DpiEngineType::ByeDpi);
    assert_eq!(c.desync_mode, "fake");
    assert_eq!(c.filter_tcp, "80");
    assert_eq!(c.split_pos, Some(7));
    assert_eq!(c.fake_ttl, None);
    assert!(!c.auto_ttl);
    assert_eq!(c.hosts, None);
    assert_eq!(c.mtu, Some(1420));
    assert_eq!(c.reserved, None);
    assert_eq!(c.extra_args, vec!["--b1".to_string(), "--b2".to_string()]);
    assert_eq!(c.generation, 5);
}

#[test]
fn crossover_with_mixed_coins_and_empty_extra_args() {
    let (mut a, b) = distinct_parents();
    let mut coins = [false; CROSSOVER_COINS];
    coins[0] = true; // engine from a
    coins[4] = true; // split position from a
    coins[30] = true; // mtu from a
    coins[36] = true; // extra arguments from a, were they not empty
    a.extra_args = Vec::new();
    let c = crossover_with(&a, &b, &coins, 1, 2);
    assert_eq!(c.engine_type, DpiEngineType::Zapret);
    assert_eq!(c.desync_mode, "fake");
    assert_eq!(c.split_pos, Some(1));
    assert_eq!(c.fake_ttl, None);
    assert_eq!(c.mtu, Some(1280));
    assert_eq!(c.extra_args, vec!["--b1".to_string(), "--b2".to_string()]);
}

#[test]
fn name_child_sets_identity_and_name() {
    let mut g = make_genome("split", DpiEngineType::Zapret);
    g.generation = 3;
    g.origin = StrategyOrigin::Builtin;
    let c = name_child(g.clone(), 42, 555, 1234);
    assert_eq!(c.id, 42);
    assert_eq!(c.created_at, 555);
    assert_eq!(c.origin, StrategyOrigin::Evolved);
    assert_eq!(c.display_name, "ev-3-zapret-1234");
    assert_eq!(c.desync_mode, "split");
    let mut w = make_genome("split", DpiEngineType::Warp);
    w.generation = 12;
    assert_eq!(name_child(w, 1, 1, 9998).display_name, "ev-12-zapret-9998");
    let b = make_genome("split", DpiEngineType::ByeDpi);
    assert_eq!(name_child(b, 1, 1, 1000).display_name, "ev-0-byedpi-1000");
}

#[test]
fn breed_attempt_moves_off_a_parent_drawn_twice() {
    let mut evolver = StrategyEvolver::new(10, true);
    let pool = vec![make_genome("split", DpiEngineType::Zapret), make_genome("fake", DpiEngineType::Zapret)];
    let ranked = vec![0usize, 1];
    let coins = [true; CROSSOVER_COINS];
    let mut kept = 0;
    for roll in 0..15 {
        // both draws name the best genome: the second parent is the next one
        if let Some(c) = evolver.breed_attempt(&pool, &ranked, 0, 0, &coins, roll, 9, 10) {
            kept += 1;
            assert_eq!(c.parent_ids, vec![pool[0].id, pool[1].id]);
            assert_eq!(c.id, 9);
            assert!(is_valid(&c));
            assert!(!exists_in(&c, &pool));
        }
        // both draws name the last genome: the second parent wraps round to the best
        if let Some(c) = evolver.breed_attempt(&pool, &ranked, 1, 1, &coins, roll, 9, 10) {
            assert_eq!(c.parent_ids, vec![pool[1].id, pool[0].id]);
        }
    }
    assert!(kept > 0);
}

#[test]
fn breed_attempt_keeps_only_valid_candidates() {
    let mut evolver = StrategyEvolver::new(10, true);
    let mut g = make_genome("", DpiEngineType::Zapret);
    g.desync_mode = String::new();
    let pool = vec![g.clone(), g];
    let ranked = vec![0usize, 1];
    // the crossover child has no desync mode; only a mutation that sets one makes it valid
    let mut kept = 0;
    for roll in 0..15 {
        if let Some(c) = evolver.breed_attempt(&pool, &ranked, 0, 1, &[false; CROSSOVER_COINS], roll, 1, 1) {
            kept += 1;
            assert!(is_valid(&c));
            assert!(!exists_in(&c, &pool));
        }
    }
    assert!(kept < 15);
}
