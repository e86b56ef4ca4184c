//! Core services: engine chains, the engine manager, probing targets,
//! settings and self-update decisions.

pub mod chains;
pub mod manager;
pub mod probe;
pub mod settings;
pub mod updater;
