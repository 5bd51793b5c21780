//! Oracle consensus engine for binary, time-bound questions (markets).
//!
//! A bounded registry of reporter identities (oracles) submits one attestation
//! per market about a binary outcome; a pure evaluator decides whether a
//! qualified majority exists; an administrative multi-signature override can
//! force a market's final outcome, gated by a global cooldown. Every
//! state-changing operation appends an audit event.
//!
//! The engine is an explicit state object ([`OracleManager`]) constructed once
//! by [`OracleManager::initialize`] and passed to every operation. The host
//! environment supplies the two external capabilities as plain values:
//! the current time (`now`, a monotonic reading taken at call entry) and an
//! [`AuthContext`] naming the identities that have proven control in the
//! current call. Each operation validates all of its preconditions before any
//! write; a failing call returns an [`Error`] and leaves the state untouched.

pub mod admin;
pub mod attest;
pub mod auth;
pub mod consensus;
pub mod emergency;
pub mod errors;
pub mod laws;
pub mod manager;
pub mod market;
pub mod records;
pub mod registry;
pub mod state;

pub use auth::AuthContext;
pub use errors::Error;
pub use manager::OracleManager;
pub use records::{Attestation, EmergencyOverrideRecord, OracleEvent, OracleRecord};
pub use records::{MarketRecord, OverrideApproval};
