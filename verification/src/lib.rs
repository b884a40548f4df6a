//! Decision logic of a wake-up staking program: a user stakes tokens on a
//! daily wake-up challenge, checks in each morning, may cancel early for a
//! time-dependent penalty, and the treasury authority withdraws collected
//! penalties.
//!
//! Every instruction is a verified function from plain account data to new
//! account data plus the token transfers that the runtime must perform.

pub mod pubkey;
pub mod error;
pub mod state;
pub mod instructions;
pub mod events;
pub mod stake2wake;
pub mod laws;
