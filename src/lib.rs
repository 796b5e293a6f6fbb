//! Finite-state-machine specifications compiled into transition guards.
//!
//! A specification is an ordered list of declared states. Each state has a
//! name, a payload shape, and either no transition list (a finish state) or
//! a list of destination names. [`compile::compile`] checks such a list and
//! turns it into a [`compile::Table`], whose operations decide legality and
//! terminality of runtime values by their tag alone.

pub mod model;
pub mod pattern;
pub mod compile;
pub mod machine;
pub mod laws;

pub use machine::StateMachine;
