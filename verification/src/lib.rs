//! Request taxonomy for operations against a replicated, ordered,
//! append-only Sequence hosted by a decentralized storage network.
//!
//! The library classifies each client-issued operation by the capability
//! class required to perform it, resolves the single content name that
//! routes it to a replica set, and re-shapes execution errors into the
//! response family that matches the originating operation.

pub mod laws;
pub mod sequence;
pub mod types;
