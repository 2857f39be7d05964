//! Abstract syntax tree for an ICU MessageFormat 2 style formatting language:
//! a node catalog with exact source spans, span derivation for composite
//! nodes, zero-copy decomposition of number literals, and a double-dispatch
//! visitor protocol for external tree walkers.

pub mod ast;
pub mod laws;
pub mod util;
pub mod visit;
