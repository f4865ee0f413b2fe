//! Delegated spending authorization for a fungible token ledger.
//!
//! An owner grants a spender a capped, optionally time-bounded right to
//! move funds on the owner's behalf; the right is consumed as it is
//! exercised. A second component transfers or revokes the exclusive
//! authority to mint new tokens. All state lives in plain data passed in
//! by the host, which serializes calls and persists the stores between
//! them.

pub mod allowance_store;
pub mod allowances;
pub mod balances;
pub mod decimal;
pub mod errors;
pub mod expiration;
pub mod laws;
pub mod minting;
pub mod responses;
pub mod spend;
