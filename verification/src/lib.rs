//! Argument normalisation and dashboard aggregation for a read-only gateway
//! in front of a full node's RPC interface.
//!
//! The gateway itself (routing, transport, serialisation) lives elsewhere.
//! This crate holds what it decides: how loosely typed request parameters
//! become typed queries, which queries a dashboard needs, and how their
//! answers combine into one snapshot.

pub mod dashboard;
pub mod decimal;
pub mod epoch;
pub mod error;
pub mod normalize;
pub mod query;
pub mod ratio;
pub mod stats;
