//! The errors with which the program refuses an instruction.

use vstd::prelude::*;

verus! {

/// Why an instruction was refused.
#[derive(Debug, Clone, Copy, PartialEq, Eq, Structural)]
pub enum Stake2WakeError {
    /// Unauthorized only the authority can perform this action
    Unauthorized,
    /// The amount of BONK tokens staked is less than the minimum required
    InvalidStakeAmount,
    /// The days specified for the challenge must be greater than zero
    InvalidTotalDays,
    /// The wakeup time must be in the future
    InvalidWakeupTime,
    /// The challenge is no longer active
    InactiveChallenge,
    /// The user already checked in during the current day of the challenge
    AlreadyCheckedInToday,
    /// The treasury has not collected enough to pay out the requested amount
    InsufficientFunds,
}

} // verus!
