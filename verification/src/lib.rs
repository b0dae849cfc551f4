//! Merge engine for consolidating two game-server databases into one.
//!
//! The second ("source") store's rows are re-keyed by a fixed per-run offset
//! and appended to the first ("target") store. This crate holds the verified
//! core: identifier remapping, reference rewriting (scalar columns and
//! JSON-embedded back-references), row transformation per entity, schema
//! planning for the provenance column, the run's phase ordering and
//! transaction coordination, and the post-merge referential-integrity
//! audit. Store I/O lives outside the crate and hands plain row values in
//! and out.

pub mod audit;
pub mod digits;
pub mod error;
pub mod json;
pub mod mapping;
pub mod merge;
pub mod orchestrator;
pub mod rewrite;
pub mod schema;
pub mod txn;
pub mod value;
