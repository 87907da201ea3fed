//! From steps to Cranelift functions.

mod agree;
pub mod assemble;
pub mod clif;
pub mod faithful;
pub mod flow;
pub mod laid;
pub mod links;
pub mod performs;
pub mod plan;
pub mod program;
pub mod runs;
pub mod source;
pub mod trace;
pub mod typed;
pub mod whole;
pub mod wide;
