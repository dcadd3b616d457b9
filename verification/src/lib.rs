//! Resolution of a chain identity — a well-known network or a custom genesis
//! configuration — into a concrete, deterministic protocol ruleset, together
//! with extraction of the optional height-gated rule overlay that a custom
//! configuration may carry.

pub mod error;
pub mod data;
pub mod overlay;
pub mod genesis;
pub mod chainspec;
pub mod json;
pub mod codec;
