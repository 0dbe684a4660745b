//! A verified model of a single-operator coffee machine.
//!
//! The machine owns three bounded deposits (coffee grounds, water, waste),
//! a fixed table of three brew recipes, and a readiness state that is
//! always recomputed from the deposit loads. Maintenance actions refill
//! or empty deposits; brew actions consume resources and produce waste.

pub mod actions;
pub mod laws;
pub mod machine;
pub mod render;
