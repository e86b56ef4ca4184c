//! Strategy intelligence: genomes, signatures, fingerprints, evolution,
//! registry, history and orchestration.

pub mod error;
pub mod genome;
pub mod signature;
pub mod fingerprint;
pub mod orchestrator;
pub mod evolver;
pub mod history;
pub mod registry;
pub mod bandit;
