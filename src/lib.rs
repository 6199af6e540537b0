//! Auditing support for on-chain program sources: a lint engine that
//! normalises toolchain diagnostics and applies a signer-authorisation
//! heuristic, and a generator and classifier for property-based fuzz
//! harnesses.
pub mod analyzer;
pub mod fuzzer;
pub mod github;
pub mod ledger;
pub mod models;
pub mod text;
