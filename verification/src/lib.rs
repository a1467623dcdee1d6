//! Pricing, fee, settlement and payout engine of a binary-outcome pooled
//! prediction market.
//!
//! Every operation is a function from plain values to plain values: the host
//! supplies identities, timestamps and oracle bytes, and moves the amounts
//! that the operations return.

pub mod errors;
pub mod instructions;
pub mod state;
