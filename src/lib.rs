//! Typed resolution of named input values, with defaults, and the greeting
//! that a generated formula prints from them.

pub mod environment;
pub mod resolve;
pub mod formula;
pub mod inputs;
