//! DPI engine layer: the engine interface types, engine profiles and their
//! command lines, and the ByeDPI engine's state.

pub mod args;
pub mod traits;
pub mod byedpi;
pub mod zapret;
