//! Verified decision logic of two Soroban contracts: a fee collector that
//! splits payments between a merchant and a treasury, and a hashed
//! time-locked contract (HTLC) that escrows tokens until a preimage is
//! revealed or a deadline passes.

pub mod types;
pub mod fee_collector;
pub mod host;
pub mod htlc;
pub mod escrow;
