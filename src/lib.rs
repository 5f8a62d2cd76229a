//! Hashed-timelock escrows for atomic swaps across two ledgers, with a
//! resolver that books orders and relays claims and refunds.
pub mod digest;
pub mod escrow;
pub mod host;
pub mod keys;
pub mod resolver;
pub mod table;
