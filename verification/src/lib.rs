//! A style rule for Lua source: every construct that introduces a function
//! name is checked against a configured casing convention for its leading
//! character (lowercase-first by default, optionally uppercase-first), and
//! each mis-cased name yields a diagnostic with a corrected suggestion.

pub mod casing;
pub mod config;
pub mod diagnostic;
pub mod laws;
pub mod lint;
pub mod tree;
