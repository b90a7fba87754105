//! A music-library cataloging engine: metadata derivation, deterministic
//! identifiers, import plans, enrichment decisions, reconciliation and the
//! background task runtime's state machine, each with a verified contract.

pub mod ids;
pub mod text;
pub mod metadata;
pub mod catalog;
pub mod import;
pub mod reconcile;
pub mod responses;
pub mod enrich;
pub mod runtime;
pub mod providers;
pub mod config;
pub mod registry;
