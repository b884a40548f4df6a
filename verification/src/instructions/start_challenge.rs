//! Starting a challenge by staking tokens.

use vstd::prelude::*;
use crate::error::Stake2WakeError;
use crate::pubkey::Pubkey;
use crate::state::{
    Account, ChallengeAccount, Clock, TokenAccountRole, TokenTransfer, TransferAuthority,
    BONK_DECIMALS, SECONDS_PER_DAY,
};

verus! {

/// The accounts of a challenge's start.
#[derive(Debug, Clone, Copy, PartialEq, Eq)]
pub struct StartChallenge {
    /// the person who is starting the challenge
    pub user: Pubkey,
    /// the account created for the challenge's data
    pub user_challenge: Account<ChallengeAccount>,
    /// the user's token account from which the stake is taken
    pub user_token_account: Pubkey,
    /// the mint of the staked token
    pub bonk_mint: Pubkey,
    /// the vault where the stake will be stored
    pub vault: Pubkey,
    /// the runtime clock
    pub clock: Clock,
}

/// Bump seeds of the program addresses that a challenge's start creates.
#[derive(Debug, Clone, Copy, PartialEq, Eq)]
pub struct StartChallengeBumps {
    pub user_challenge: u8,
}

/// Why a start with these parameters at `now` is refused, if it is: checked
/// in the order stake, days, wake-up time.
pub open spec fn start_refusal(wakeup_time: u64, stake_amount: u64, total_days: u64, now: u64) -> Option<
    Stake2WakeError,
> {
    if stake_amount == 0 {
        Some(Stake2WakeError::InvalidStakeAmount)
    } else if total_days == 0 {
        Some(Stake2WakeError::InvalidTotalDays)
    } else if wakeup_time <= now {
        Some(Stake2WakeError::InvalidWakeupTime)
    } else {
        None
    }
}

/// The inputs on which a start runs without arithmetic overflow: the end of
/// an accepted challenge fits in 64 bits.
pub open spec fn start_defined(wakeup_time: u64, stake_amount: u64, total_days: u64, now: u64) -> bool {
    start_refusal(wakeup_time, stake_amount, total_days, now) is None ==> now + total_days
        * SECONDS_PER_DAY <= u64::MAX
}

/// The challenge that an accepted start at `now` records.
pub open spec fn new_challenge(
    s: StartChallenge,
    wakeup_time: u64,
    stake_amount: u64,
    total_days: u64,
    bump: u8,
) -> ChallengeAccount {
    let now = s.clock.now_spec();
    ChallengeAccount {
        user: s.user,
        wakeup_time,
        stake_amount,
        mint: s.bonk_mint,
        vault: s.vault,
        is_active: true,
        start_time: now,
        end_time: (now + total_days * SECONDS_PER_DAY) as u64,
        last_check_time: 0,
        completed_days: 0,
        total_days,
        bump,
    }
}

/// The transfer of an accepted start: the stake from the user's account to
/// the vault, signed by the user.
pub open spec fn stake_transfer(stake_amount: u64) -> TokenTransfer {
    TokenTransfer {
        from: TokenAccountRole::UserTokenAccount,
        to: TokenAccountRole::Vault,
        authority: TransferAuthority::User,
        amount: stake_amount,
        decimals: BONK_DECIMALS,
    }
}

impl StartChallenge {
    /// Whether a start with these parameters runs without arithmetic
    /// overflow.
    pub fn runs_without_overflow(&self, wakeup_time: u64, stake_amount: u64, total_days: u64) -> (r:
        bool)
        ensures
            r == start_defined(wakeup_time, stake_amount, total_days, self.clock.now_spec()),
    {
        let now = self.clock.now();
        if stake_amount == 0 || total_days == 0 || wakeup_time <= now {
            return true;
        }
        (now as u128) + (total_days as u128) * (SECONDS_PER_DAY as u128) <= u64::MAX as u128
    }

    /// Starts a challenge at the clock's time: the stake and the number of
    /// days must be positive and the wake-up time must lie after now. The
    /// challenge is recorded as active, with no day completed, ending after
    /// the given number of days; the stake moves to the vault. A refused start
    /// changes nothing.
    pub fn start_challenge(
        &mut self,
        wakeup_time: u64,
        stake_amount: u64,
        total_days: u64,
        bumps: &StartChallengeBumps,
    ) -> (r: Result<TokenTransfer, Stake2WakeError>)
        requires
            start_defined(wakeup_time, stake_amount, total_days, old(self).clock.now_spec()),
        ensures
            match start_refusal(wakeup_time, stake_amount, total_days, old(self).clock.now_spec()) {
                Some(e) => r == Err::<TokenTransfer, Stake2WakeError>(e) && *final(self) == *old(self),
                None => {
                    &&& r == Ok::<TokenTransfer, Stake2WakeError>(stake_transfer(stake_amount))
                    &&& *final(self) == (StartChallenge {
                        user_challenge: Account {
                            key: old(self).user_challenge.key,
                            data: new_challenge(
                                *old(self),
                                wakeup_time,
                                stake_amount,
                                total_days,
                                bumps.user_challenge,
                            ),
                        },
                        ..*old(self)
                    })
                },
            },
    {
        if !(stake_amount > 0) {
            return Err(Stake2WakeError::InvalidStakeAmount);
        }
        if !(total_days > 0) {
            return Err(Stake2WakeError::InvalidTotalDays);
        }
        if !(wakeup_time > self.clock.now()) {
            return Err(Stake2WakeError::InvalidWakeupTime);
        }

        let now = self.clock.now();
        proof {
            assert(total_days * SECONDS_PER_DAY <= now + total_days * SECONDS_PER_DAY);
        }

        self.user_challenge.data = ChallengeAccount {
            user: self.user,
            wakeup_time,
            stake_amount,
            mint: self.bonk_mint,
            vault: self.vault,
            is_active: true,
            start_time: now,
            end_time: now + total_days * SECONDS_PER_DAY,
            last_check_time: 0,
            completed_days: 0,
            total_days,
            bump: bumps.user_challenge,
        };

        Ok(
            TokenTransfer {
                from: TokenAccountRole::UserTokenAccount,
                to: TokenAccountRole::Vault,
                authority: TransferAuthority::User,
                amount: stake_amount,
                decimals: BONK_DECIMALS,
            },
        )
    }
}

} // verus!
