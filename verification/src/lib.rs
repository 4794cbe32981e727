//! Declarative synchronization engine for a hosted game platform: declared
//! monetization resources and universe settings are reconciled against the
//! remote service's state, using a persisted ledger of last-applied snapshots
//! to keep runs idempotent and to avoid redundant network calls.

pub mod asset;
pub mod commands;
pub mod config;
pub mod errors;
pub mod export;
pub mod hashing;
pub mod laws;
pub mod reconcile;
pub mod remote;
pub mod state;
pub mod text;
pub mod universe;
