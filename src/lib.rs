//! Structural extraction over a parsed Rust source tree: declarations become
//! graph nodes, and calls and struct literals found in function bodies become
//! edges between them.

pub mod syntax;
pub mod interactions;
pub mod graph;
pub mod extract;
pub mod laws;
