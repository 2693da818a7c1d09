//! Execution core of a small token-and-governance contract: typed storage,
//! an authorization guard, checked supply arithmetic, a proposal lifecycle
//! and the correlation of sub-operations with their replies.

pub mod contract;
pub mod error;
pub mod ibc;
pub mod laws;
pub mod msg;
pub mod state;
