//! The second-generation engine layer: interface types and serializable
//! engine profiles with their command lines.

pub mod traits;
