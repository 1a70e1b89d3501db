//! Expression type checking for a circuit-oriented language: bidirectional
//! type propagation over an expression tree, with every violation recorded in
//! a diagnostic sink rather than stopping at the first.

pub mod types;
pub mod ast;
pub mod lookup;
pub mod symbols;
pub mod diagnostics;
pub mod literal;
pub mod semantics;
pub mod checker;
pub mod laws;
