//! An abstract syntax tree for composable names, together with a parse
//! adapter that rebuilds an owned tree from the node views handed over by an
//! external grammar compiler, under a fallible allocation discipline.

pub mod gauge;
pub mod name;
pub mod serialize;
pub mod translate;
pub mod tree;

pub use gauge::AllocGauge;
