//! Heads-up display rules.

pub mod tutorial;
