//! Match start rules.

pub mod match_start;
