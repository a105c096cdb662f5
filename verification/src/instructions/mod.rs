//! The operations of the bridge. Each takes the accounts it works on as
//! plain values, checks authority and derivations, and gives the transaction
//! that carries the operation out.
pub mod bridge_request;
pub mod burn_token;
pub mod initialize_bridge;
pub mod mint_nft;
