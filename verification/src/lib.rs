//! Authority and custody rules of a cross-chain bridge.
//!
//! A bridge is a registry entity living at a program-derived address. Every
//! privileged operation is gated to the single backend recorded in that
//! entity, is signed with a capability reproduced from the entity's seed and
//! bump, and is expressed as a transaction: an ordered list of delegated calls
//! to the token and metadata services plus the event to publish on success.
pub mod address;
pub mod errors;
pub mod derivation;
pub mod data;
pub mod transaction;
pub mod instructions;
pub mod table;
pub mod ledger;
pub mod program;
pub mod laws;
