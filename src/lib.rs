//! An escrow settlement engine for two-party paid engagements, with the registries and
//! ledgers that surround it, each stated and proved as a state machine over plain values.

pub mod audit_log;
pub mod booking_escrow;
pub mod config;
pub mod dispute;
pub mod earnings;
pub mod engine;
pub mod error;
pub mod events;
pub mod fee;
pub mod fee_split;
pub mod keys;
pub mod laws;
pub mod refund_policy;
pub mod registry;
pub mod release_auth;
pub mod reputation;
pub mod session;
pub mod session_gate;
pub mod skills_mirror;
pub mod stake;
pub mod withdrawal;
