//! A two-party wagering escrow: a creator locks a stake, a taker accepts it,
//! and the stake is later paid to the declared winner or refunded.

pub mod address;
pub mod error;
pub mod wire;
pub mod state;
pub mod instructions;
pub mod pda;
pub mod transitions;
pub mod processor;
