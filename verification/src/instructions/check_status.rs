//! The daily check-in of a challenge.

use vstd::prelude::*;
use crate::error::Stake2WakeError;
use crate::pubkey::Pubkey;
use crate::state::{
    Account, ChallengeAccount, Clock, TokenAccountRole, TokenTransfer, TransferAuthority, Treasury,
    BONK_DECIMALS, CHECK_IN_GRACE_SECONDS, SECONDS_PER_DAY,
};

verus! {

/// The accounts of a check-in.
#[derive(Debug, Clone, Copy, PartialEq, Eq)]
pub struct CheckStatus {
    /// user who started the challenge
    pub user: Pubkey,
    /// the user's challenge
    pub user_challenge: Account<ChallengeAccount>,
    /// the user's token account that receives the stake back
    pub user_token_account: Pubkey,
    /// mint of the staked token
    pub bonk_mint: Pubkey,
    /// vault that holds the stake
    pub vault: Pubkey,
    /// the treasury
    pub treasury: Account<Treasury>,
    /// token account of the treasury
    pub treasury_ata: Pubkey,
    /// the runtime clock
    pub clock: Clock,
}

/// The day of the challenge that time `t` falls in, counted from its start.
pub open spec fn challenge_day(c: ChallengeAccount, t: u64) -> int {
    (t - c.start_time) / (SECONDS_PER_DAY as int)
}

/// The user has not checked in on time yet: no day is counted (every
/// on-time check-in counts one).
pub open spec fn never_checked_in(c: ChallengeAccount) -> bool {
    c.completed_days == 0
}

/// The user already checked in on the day of the challenge that `now` falls in.
pub open spec fn checked_in_today(c: ChallengeAccount, now: u64) -> bool {
    !never_checked_in(c) && challenge_day(c, now) <= challenge_day(c, c.last_check_time)
}

/// A check-in at `now` lies in the wake-up window: its time of day is the
/// wake-up time of day or at most the grace period after it (the window may
/// run past midnight).
pub open spec fn in_wakeup_window(c: ChallengeAccount, now: u64) -> bool {
    ((now % SECONDS_PER_DAY) - (c.wakeup_time % SECONDS_PER_DAY) + SECONDS_PER_DAY) % (
    SECONDS_PER_DAY as int) <= CHECK_IN_GRACE_SECONDS
}

/// The inputs on which a check-in of an active challenge is defined: the
/// clock is not before the start, once a day is counted its check-in time is
/// not before the start, and the count of days of an on-time check-in fits
/// in 64 bits.
pub open spec fn check_in_defined(c: ChallengeAccount, now: u64) -> bool {
    c.is_active ==> {
        &&& c.start_time <= now
        &&& never_checked_in(c) || c.start_time <= c.last_check_time
        &&& !checked_in_today(c, now) && in_wakeup_window(c, now) ==> c.completed_days < u64::MAX
    }
}

/// The challenge after a check-in at `now`, or why the check-in is refused.
/// An on-time check-in counts the day and records its time, and the
/// challenge ends once all days are counted; a check-in outside the wake-up
/// window fails the challenge, which ends with its count unchanged.
pub open spec fn check_in(c: ChallengeAccount, now: u64) -> Result<ChallengeAccount, Stake2WakeError> {
    if !c.is_active {
        Err(Stake2WakeError::InactiveChallenge)
    } else if checked_in_today(c, now) {
        Err(Stake2WakeError::AlreadyCheckedInToday)
    } else if !in_wakeup_window(c, now) {
        Ok(ChallengeAccount { is_active: false, ..c })
    } else {
        Ok(
            ChallengeAccount {
                completed_days: (c.completed_days + 1) as u64,
                last_check_time: now,
                is_active: c.completed_days + 1 < c.total_days,
                ..c
            },
        )
    }
}

/// The transfer of an accepted check-in at `now`: on a missed window the
/// stake is slashed from the vault to the treasury; on the on-time check-in
/// that completes the last day it goes back from the vault to the user; on
/// any other on-time check-in nothing moves. Signed by the challenge.
pub open spec fn check_in_transfer(c: ChallengeAccount, now: u64) -> Option<TokenTransfer> {
    if !in_wakeup_window(c, now) {
        Some(
            TokenTransfer {
                from: TokenAccountRole::Vault,
                to: TokenAccountRole::TreasuryAta,
                authority: TransferAuthority::UserChallenge,
                amount: c.stake_amount,
                decimals: BONK_DECIMALS,
            },
        )
    } else if c.completed_days + 1 >= c.total_days {
        Some(
            TokenTransfer {
                from: TokenAccountRole::Vault,
                to: TokenAccountRole::UserTokenAccount,
                authority: TransferAuthority::UserChallenge,
                amount: c.stake_amount,
                decimals: BONK_DECIMALS,
            },
        )
    } else {
        None
    }
}

/// The treasury after an accepted check-in at `now`: a slashed stake adds to
/// its total (held at the largest 64-bit value); otherwise it is unchanged.
pub open spec fn treasury_after_check_in(t: Treasury, c: ChallengeAccount, now: u64) -> Treasury {
    if !in_wakeup_window(c, now) {
        Treasury { total_collected: t.total_collected.saturating_add(c.stake_amount), ..t }
    } else {
        t
    }
}

impl CheckStatus {
    /// Whether a check-in with these accounts is defined (see
    /// `check_in_defined`).
    pub fn runs_without_overflow(&self) -> (r: bool)
        ensures
            r == check_in_defined(self.user_challenge.data, self.clock.now_spec()),
    {
        let c = &self.user_challenge.data;
        let now = self.clock.now();
        if !c.is_active {
            return true;
        }
        if now < c.start_time || (c.completed_days != 0 && c.last_check_time < c.start_time) {
            return false;
        }
        if c.completed_days != 0 && (now - c.start_time) / SECONDS_PER_DAY <= (c.last_check_time
            - c.start_time) / SECONDS_PER_DAY {
            return true;
        }
        !Self::on_time(now, c.wakeup_time) || c.completed_days < u64::MAX
    }

    /// Whether a check-in at `now` lies in the wake-up window of a challenge
    /// that wakes up at `wakeup_time`.
    fn on_time(now: u64, wakeup_time: u64) -> (r: bool)
        ensures
            r == (((now % SECONDS_PER_DAY) - (wakeup_time % SECONDS_PER_DAY) + SECONDS_PER_DAY) % (
            SECONDS_PER_DAY as int) <= CHECK_IN_GRACE_SECONDS),
    {
        let seconds_from_midnight = now % SECONDS_PER_DAY;
        let wakeup_of_day = wakeup_time % SECONDS_PER_DAY;
        let since_wakeup = (seconds_from_midnight + SECONDS_PER_DAY - wakeup_of_day) % SECONDS_PER_DAY;
        since_wakeup <= CHECK_IN_GRACE_SECONDS
    }

    /// Checks the user in for the current day of the challenge. An on-time
    /// check-in counts the day and records its time, ends the challenge once
    /// all days are counted, and on that last day sends the stake back from
    /// the vault. A check-in outside the wake-up window fails the challenge:
    /// it ends, the stake is slashed to the treasury and added to the
    /// treasury's total. The result says whether the check-in was on time. A
    /// refused check-in changes nothing.
    pub fn check_status(&mut self) -> (r: Result<(bool, Option<TokenTransfer>), Stake2WakeError>)
        requires
            check_in_defined(old(self).user_challenge.data, old(self).clock.now_spec()),
        ensures
            match check_in(old(self).user_challenge.data, old(self).clock.now_spec()) {
                Ok(c) => {
                    let now = old(self).clock.now_spec();
                    let c0 = old(self).user_challenge.data;
                    &&& r == Ok::<(bool, Option<TokenTransfer>), Stake2WakeError>(
                        (in_wakeup_window(c0, now), check_in_transfer(c0, now)),
                    )
                    &&& *final(self) == (CheckStatus {
                        user_challenge: Account { key: old(self).user_challenge.key, data: c },
                        treasury: Account {
                            key: old(self).treasury.key,
                            data: treasury_after_check_in(old(self).treasury.data, c0, now),
                        },
                        ..*old(self)
                    })
                },
                Err(e) => {
                    &&& r == Err::<(bool, Option<TokenTransfer>), Stake2WakeError>(e)
                    &&& *final(self) == *old(self)
                },
            },
    {
        let now = self.clock.now();
        let challenge = &mut self.user_challenge.data;

        if !challenge.is_active {
            return Err(Stake2WakeError::InactiveChallenge);
        }

        if challenge.completed_days != 0 {
            let current_day = (now - challenge.start_time) / SECONDS_PER_DAY;
            let last_checked_day = (challenge.last_check_time - challenge.start_time) / SECONDS_PER_DAY;
            if !(current_day > last_checked_day) {
                return Err(Stake2WakeError::AlreadyCheckedInToday);
            }
        }

        if Self::on_time(now, challenge.wakeup_time) {
            challenge.completed_days = challenge.completed_days + 1;
            challenge.last_check_time = now;

            if challenge.completed_days >= challenge.total_days {
                challenge.is_active = false;
                let transfer = TokenTransfer {
                    from: TokenAccountRole::Vault,
                    to: TokenAccountRole::UserTokenAccount,
                    authority: TransferAuthority::UserChallenge,
                    amount: challenge.stake_amount,
                    decimals: BONK_DECIMALS,
                };
                Ok((true, Some(transfer)))
            } else {
                Ok((true, None))
            }
        } else {
            challenge.is_active = false;
            self.treasury.data.total_collected = self.treasury.data.total_collected.saturating_add(
                challenge.stake_amount,
            );
            let transfer = TokenTransfer {
                from: TokenAccountRole::Vault,
                to: TokenAccountRole::TreasuryAta,
                authority: TransferAuthority::UserChallenge,
                amount: challenge.stake_amount,
                decimals: BONK_DECIMALS,
            };
            Ok((false, Some(transfer)))
        }
    }
}

} // verus!
