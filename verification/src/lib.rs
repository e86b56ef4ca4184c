//! Proteus: network-adaptive DPI bypass strategy management.
//!
//! Strategy genomes, their signatures, the genetic evolver, the strategy
//! registry and trial history, orchestration state machines, engine command
//! lines, chain building and the core service models.

mod outside;

pub mod text;
pub mod ai;
pub mod engine;
pub mod proteus_engine;
pub mod proteus_ai;
pub mod services;
pub mod cli;
pub mod xtask;
pub mod gui;
