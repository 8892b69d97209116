//! On-chain value resolution and metrics aggregation for a carbon-credit
//! tokenization platform.
//!
//! The crate decodes raw contract-call results (ordered sequences of
//! fixed-width unsigned scalars) into typed domain values, assembles batches
//! of named call results, and combines decoded values with persisted project
//! metadata into unit-scaled, display-ready view models. Every decode rule,
//! scaling rule and builder stage carries a contract that pins its result.

pub mod amounts;
pub mod batch;
pub mod errors;
pub mod felt;
pub mod model;
pub mod farming;
pub mod text;
