//! Account data that the program keeps, and the plain views of the runtime
//! accounts that its instructions read.

use vstd::prelude::*;
use crate::pubkey::Pubkey;

verus! {

/// Seconds in one day of a challenge.
pub const SECONDS_PER_DAY: u64 = 86400;

/// Seconds of slack around the wake-up time within which a check-in counts.
pub const CHECK_IN_GRACE_SECONDS: u64 = 900;

/// Decimals of the staked token, as the staking transfers state them.
pub const BONK_DECIMALS: u8 = 6;

/// One user's wake-up challenge.
#[derive(Debug, Clone, Copy, PartialEq, Eq)]
pub struct ChallengeAccount {
    /// the user who created the challenge
    pub user: Pubkey,
    /// the time when the user wants to wake up
    pub wakeup_time: u64,
    /// the amount the user staked
    pub stake_amount: u64,
    /// whether the challenge is active or not
    pub is_active: bool,
    /// mint of the token which is staked
    pub mint: Pubkey,
    /// vault where the staked tokens are kept
    pub vault: Pubkey,
    /// time when the challenge was started
    pub start_time: u64,
    /// time when the challenge will end
    pub end_time: u64,
    /// last time when the user checked in
    pub last_check_time: u64,
    /// the number of days completed in the challenge
    pub completed_days: u64,
    /// the total number of days in the challenge
    pub total_days: u64,
    /// bump seed of the challenge's program address
    pub bump: u8,
}

/// The protocol treasury that collects penalties.
#[derive(Debug, Clone, Copy, PartialEq, Eq)]
pub struct Treasury {
    /// authority of the treasury
    pub authority: Pubkey,
    /// token account of the treasury
    pub treasury_ata: Pubkey,
    /// mint of the staked token
    pub bonk_mint: Pubkey,
    /// total amount collected in the treasury
    pub total_collected: u64,
    /// bump seed of the treasury's program address
    pub bump: u8,
}

/// The runtime clock, as the program reads it.
#[derive(Debug, Clone, Copy, PartialEq, Eq)]
pub struct Clock {
    pub unix_timestamp: i64,
}

impl Clock {
    /// The clock's time as the program counts it: the timestamp reinterpreted
    /// as unsigned.
    pub open spec fn now_spec(self) -> u64 {
        self.unix_timestamp as u64
    }

    /// The clock's time as the program counts it.
    pub fn now(&self) -> (r: u64)
        ensures
            r == self.now_spec(),
    {
        self.unix_timestamp as u64
    }
}

/// What the program reads of a token mint: its decimals.
#[derive(Debug, Clone, Copy, PartialEq, Eq)]
pub struct Mint {
    pub decimals: u8,
}

/// An account: its address and its data.
#[derive(Debug, Clone, Copy, PartialEq, Eq)]
pub struct Account<T> {
    pub key: Pubkey,
    pub data: T,
}

impl<T> Account<T> {
    /// The account's address.
    pub fn key(&self) -> (r: Pubkey)
        ensures
            r == self.key,
    {
        self.key
    }
}

/// A token account that an instruction moves tokens from or to.
#[derive(Debug, Clone, Copy, PartialEq, Eq, Structural)]
pub enum TokenAccountRole {
    /// the user's own token account
    UserTokenAccount,
    /// the challenge's vault that holds the stake
    Vault,
    /// the treasury's token account
    TreasuryAta,
    /// the treasury authority's own token account
    AuthorityAta,
}

/// The account that signs a token transfer.
#[derive(Debug, Clone, Copy, PartialEq, Eq, Structural)]
pub enum TransferAuthority {
    /// the user's own signature
    User,
    /// the challenge account, signing with its program-address seeds
    UserChallenge,
    /// the treasury account, signing with its program-address seeds
    Treasury,
}

/// A checked token transfer that an instruction asks the token program for.
#[derive(Debug, Clone, Copy, PartialEq, Eq, Structural)]
pub struct TokenTransfer {
    pub from: TokenAccountRole,
    pub to: TokenAccountRole,
    pub authority: TransferAuthority,
    pub amount: u64,
    pub decimals: u8,
}

} // verus!
