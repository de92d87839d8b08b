//! Client-side login flow: field validators, the reconciliation of remote
//! email checks by generation stamps, and the state machine that sequences
//! login, profile fetch and persistence.

pub mod validate;
pub mod remote;
pub mod profile;
pub mod flow;
pub mod laws;
