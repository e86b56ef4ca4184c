//! The second-generation orchestration service.

pub mod orchestrator;
