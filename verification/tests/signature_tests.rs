use proteus::ai::genome::StrategyGenome;
use proteus::ai::signature::{compute, compute_set, exists_in};

#[test]
fn test_signature_is_deterministic() {
    let a = StrategyGenome::default_zapret();
    let b = StrategyGenome::default_zapret();
    assert_eq!(compute(&a), compute(&b));
}

#[test]
fn test_signature_differs_for_different_params() {
    let a = StrategyGenome::default_zapret();
    let mut b = StrategyGenome::default_zapret();
    b.desync_mode = "fake".into();
    assert_ne!(compute(&a), compute(&b));
}

#[test]
fn test_signature_ignores_metadata() {
    let a = StrategyGenome::default_zapret();
    let mut b = StrategyGenome::default_zapret();
    b.display_name = "different-name".into();
    b.id = uuid::Uuid::new_v4().as_u128();
    assert_eq!(compute(&a), compute(&b));
}

#[test]
fn test_signature_ignores_generation() {
    let a = StrategyGenome::default_zapret();
    let mut b = StrategyGenome::default_zapret();
    b.generation = 42;
    assert_eq!(compute(&a), compute(&b));
}

#[test]
fn test_signature_uses_extra_args() {
    let a = StrategyGenome::default_zapret();
    let mut b = StrategyGenome::default_zapret();
    b.extra_args.push("--new".into());
    assert_ne!(compute(&a), compute(&b));
}

#[test]
fn test_compute_set_deduplicates() {
    let a = StrategyGenome::default_zapret();
    let b = StrategyGenome::default_zapret();
    let c = StrategyGenome::default_byedpi();
    let sigs = compute_set(&[a, b, c]);
    assert_eq!(sigs.len(), 2);
}

#[test]
fn test_exists_in() {
    let a = StrategyGenome::default_zapret();
    let b = StrategyGenome::default_zapret();
    let c = StrategyGenome::default_byedpi();
    assert!(exists_in(&a, &[b, c.clone()]));
    assert!(!exists_in(&c, &[StrategyGenome::default_zapret()]));
}

#[test]
fn signature_is_64_lowercase_hex_digits() {
    let s = compute(&StrategyGenome::default_warp());
    assert_eq!(s.len(), 64);
    assert!(s.chars().all(|c| c.is_ascii_digit() || ('a'..='f').contains(&c)));
}

#[test]
fn compute_set_is_sorted() {
    let sigs = compute_set(&[StrategyGenome::default_warp(), StrategyGenome::default_zapret(), StrategyGenome::default_byedpi()]);
    assert_eq!(sigs.len(), 3);
    assert!(sigs[0] < sigs[1] && sigs[1] < sigs[2]);
}

#[test]
fn signature_of_known_genomes() {
    // SHA-256 of the compact JSON payload, as serde_json writes it
    let z = StrategyGenome::default_zapret();
    assert_eq!(compute(&z), "203293b9107eff0cfe96a4eac9f92e32fed16ab634fd8f982ecaf6fca10157ca");
    let mut b = StrategyGenome::default_byedpi();
    b.desync_mode = "sp\"lit\n".into();
    b.fake_ttl = Some(-3);
    b.md5sig = Some(true);
    b.extra_args = vec!["a".into(), "b".into()];
    assert_eq!(compute(&b), "229421729f1d631da2a7c9fa5841d2eadda23efe80145524fbb7d91942d21026");
}
