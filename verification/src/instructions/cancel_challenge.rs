//! Early cancellation of a challenge, for a penalty that shrinks with
//! progress.

use vstd::prelude::*;
use vstd::arithmetic::div_mod::lemma_div_is_ordered;
use vstd::arithmetic::mul::{lemma_mul_inequality, lemma_mul_is_commutative};
use crate::error::Stake2WakeError;
use crate::pubkey::Pubkey;
use crate::state::{
    Account, ChallengeAccount, Clock, TokenAccountRole, TokenTransfer,
    TransferAuthority, Treasury, BONK_DECIMALS,
};

verus! {

/// The accounts of a cancellation.
#[derive(Debug, Clone, Copy, PartialEq, Eq)]
pub struct CancelChallenge {
    /// the user, who must sign
    pub user: Pubkey,
    /// the user's challenge
    pub user_challenge: Account<ChallengeAccount>,
    /// the user's token account (the user's wallet)
    pub user_token_account: Pubkey,
    /// mint of the staked token
    pub bonk_mint: Pubkey,
    /// vault that holds the stake
    pub vault: Pubkey,
    /// the treasury, which collects the penalty
    pub treasury: Account<Treasury>,
    /// token account of the treasury
    pub treasury_ata: Pubkey,
    /// the runtime clock
    pub clock: Clock,
}

/// `a - b`, or 0 where `b` exceeds `a`.
pub open spec fn minus_or_zero(a: u64, b: u64) -> int {
    if a >= b { a - b } else { 0 }
}

/// The share of the challenge's duration that has elapsed at `now`, in whole
/// percent rounded down (0 for a challenge without duration).
pub open spec fn cancel_progress(c: ChallengeAccount, now: u64) -> int {
    let total_duration = minus_or_zero(c.end_time, c.start_time);
    let elapsed = minus_or_zero(now, c.start_time);
    if total_duration > 0 { (elapsed * 100) / total_duration } else { 0 }
}

/// The penalty in percent of the stake: 20 up to a quarter of the way,
/// 5 from three quarters on, and in between falling linearly from 20 to 5,
/// rounded up.
pub open spec fn penalty_percentage(progress: int) -> int {
    if progress <= 25 {
        20
    } else if progress >= 75 {
        5
    } else {
        20 - ((progress - 25) * 15) / 50
    }
}

/// The penalty for cancelling at `now`: the penalty percentage of the stake,
/// rounded down.
pub open spec fn cancel_penalty(c: ChallengeAccount, now: u64) -> int {
    (c.stake_amount * penalty_percentage(cancel_progress(c, now))) / 100
}

/// What the user gets back on cancelling at `now`: the stake less the penalty.
pub open spec fn cancel_refund(c: ChallengeAccount, now: u64) -> int {
    c.stake_amount - cancel_penalty(c, now)
}

/// The inputs on which a cancellation runs without arithmetic overflow: the
/// elapsed time in percent and the stake times the penalty percentage fit in
/// 64 bits.
pub open spec fn cancel_defined(c: ChallengeAccount, now: u64) -> bool {
    c.is_active ==> {
        &&& minus_or_zero(c.end_time, c.start_time) > 0 ==> minus_or_zero(now, c.start_time) * 100
            <= u64::MAX
        &&& c.stake_amount * penalty_percentage(cancel_progress(c, now)) <= u64::MAX
    }
}

/// The transfers of a cancellation at `now`: the penalty from the vault to the
/// treasury, then the rest of the stake back to the user, each only where it
/// is not zero; both signed by the challenge.
pub open spec fn cancel_transfers(c: ChallengeAccount, now: u64) -> Seq<TokenTransfer> {
    let penalty = TokenTransfer {
        from: TokenAccountRole::Vault,
        to: TokenAccountRole::TreasuryAta,
        authority: TransferAuthority::UserChallenge,
        amount: cancel_penalty(c, now) as u64,
        decimals: BONK_DECIMALS,
    };
    let refund = TokenTransfer {
        from: TokenAccountRole::Vault,
        to: TokenAccountRole::UserTokenAccount,
        authority: TransferAuthority::UserChallenge,
        amount: cancel_refund(c, now) as u64,
        decimals: BONK_DECIMALS,
    };
    (if cancel_penalty(c, now) > 0 { seq![penalty] } else { seq![] }) + (if cancel_refund(c, now)
        > 0 {
        seq![refund]
    } else {
        seq![]
    })
}

/// The treasury's total after collecting the penalty of a cancellation at
/// `now`, held at the largest 64-bit value.
pub open spec fn collected_after_cancel(t: Treasury, c: ChallengeAccount, now: u64) -> u64 {
    if t.total_collected + cancel_penalty(c, now) > u64::MAX {
        u64::MAX
    } else {
        (t.total_collected + cancel_penalty(c, now)) as u64
    }
}

/// The penalty percentage lies between 5 and 20.
pub proof fn lemma_penalty_percentage_bounds(progress: int)
    ensures
        5 <= penalty_percentage(progress) <= 20,
{
    if 25 < progress < 75 {
        assert(0 < (progress - 25) * 15 < 750) by (nonlinear_arith)
            requires
                25 < progress < 75,
        ;
        lemma_div_is_ordered(0, (progress - 25) * 15, 50);
        lemma_div_is_ordered((progress - 25) * 15, 750, 50);
    }
}

/// The penalty is at most a fifth of the stake, so the refund is not negative.
pub proof fn lemma_cancel_penalty_bounds(c: ChallengeAccount, now: u64)
    ensures
        0 <= cancel_penalty(c, now) <= c.stake_amount / 5,
        0 <= cancel_refund(c, now) <= c.stake_amount,
{
    let pp = penalty_percentage(cancel_progress(c, now));
    lemma_penalty_percentage_bounds(cancel_progress(c, now));
    lemma_mul_inequality(pp, 20, c.stake_amount as int);
    lemma_mul_is_commutative(pp, c.stake_amount as int);
    assert(0 <= c.stake_amount * pp) by (nonlinear_arith)
        requires
            0 <= pp,
    ;
    lemma_div_is_ordered(0, c.stake_amount * pp, 100);
    lemma_div_is_ordered(c.stake_amount * pp, c.stake_amount * 20, 100);
    assert((c.stake_amount * 20) / 100 == c.stake_amount / 5) by (nonlinear_arith);
}

impl CancelChallenge {
    /// Whether a cancellation with these accounts runs without arithmetic
    /// overflow.
    pub fn runs_without_overflow(&self) -> (r: bool)
        ensures
            r == cancel_defined(self.user_challenge.data, self.clock.now_spec()),
    {
        let c = &self.user_challenge.data;
        let now = self.clock.now();
        if !c.is_active {
            return true;
        }
        let total_duration = c.end_time.saturating_sub(c.start_time);
        let elapsed_time = now.saturating_sub(c.start_time);
        let scaled: u128 = (elapsed_time as u128) * 100;
        if total_duration > 0 && scaled > u64::MAX as u128 {
            return false;
        }
        let progress: u128 = if total_duration > 0 {
            scaled / (total_duration as u128)
        } else {
            0
        };
        assert(progress == cancel_progress(*c, now));
        let penalty_percentage: u128 = if progress <= 25 {
            20
        } else if progress >= 75 {
            5
        } else {
            proof {
                lemma_penalty_percentage_bounds(progress as int);
            }
            20 - ((progress - 25) * 15) / 50
        };
        assert(penalty_percentage == self::penalty_percentage(cancel_progress(*c, now)));
        assert((c.stake_amount as u128) * penalty_percentage <= u64::MAX * 20) by (nonlinear_arith)
            requires
                penalty_percentage <= 20,
                c.stake_amount <= u64::MAX,
        ;
        (c.stake_amount as u128) * penalty_percentage <= u64::MAX as u128
    }

    /// Cancels an active challenge at the clock's time: the challenge ends,
    /// the penalty is added to the treasury's total (held at the largest
    /// 64-bit value), and the penalty goes to the treasury and the rest of the
    /// stake back to the user. The result gives the penalty, the refund and the
    /// transfers. A refused cancellation changes nothing.
    pub fn cancel_challenge(&mut self) -> (r: Result<(u64, u64, Vec<TokenTransfer>), Stake2WakeError>)
        requires
            cancel_defined(old(self).user_challenge.data, old(self).clock.now_spec()),
        ensures
            match r {
                Ok((penalty_amount, return_amount, transfers)) => {
                    let c = old(self).user_challenge.data;
                    let now = old(self).clock.now_spec();
                    &&& c.is_active
                    &&& penalty_amount == cancel_penalty(c, now)
                    &&& return_amount == cancel_refund(c, now)
                    &&& transfers@ == cancel_transfers(c, now)
                    &&& *final(self) == (CancelChallenge {
                        user_challenge: Account {
                            key: old(self).user_challenge.key,
                            data: ChallengeAccount { is_active: false, ..c },
                        },
                        treasury: Account {
                            key: old(self).treasury.key,
                            data: Treasury {
                                total_collected: collected_after_cancel(old(self).treasury.data, c, now),
                                ..old(self).treasury.data
                            },
                        },
                        ..*old(self)
                    })
                },
                Err(e) => {
                    &&& !old(self).user_challenge.data.is_active
                    &&& e == Stake2WakeError::InactiveChallenge
                    &&& *final(self) == *old(self)
                },
            },
    {
        let ghost c = self.user_challenge.data;
        if !self.user_challenge.data.is_active {
            return Err(Stake2WakeError::InactiveChallenge);
        }

        let now = self.clock.now();
        let challenge = &mut self.user_challenge.data;
        let total_duration = challenge.end_time.saturating_sub(challenge.start_time);
        let elapsed_time = now.saturating_sub(challenge.start_time);

        let progress = if total_duration > 0 {
            (elapsed_time * 100) / total_duration
        } else {
            0
        };
        assert(progress == cancel_progress(c, now));

        let penalty_percentage: u64 = if progress <= 25 {
            20
        } else if progress >= 75 {
            5
        } else {
            proof {
                lemma_penalty_percentage_bounds(progress as int);
            }
            20 - ((progress - 25) * (20 - 5)) / (75 - 25)
        };
        assert(penalty_percentage == self::penalty_percentage(cancel_progress(c, now)));

        let penalty_amount = (challenge.stake_amount * penalty_percentage) / 100;
        proof {
            lemma_cancel_penalty_bounds(c, now);
        }
        let return_amount = challenge.stake_amount.saturating_sub(penalty_amount);

        challenge.is_active = false;

        self.treasury.data.total_collected = self.treasury.data.total_collected.saturating_add(
            penalty_amount,
        );

        let mut transfers: Vec<TokenTransfer> = Vec::new();
        if penalty_amount > 0 {
            transfers.push(
                TokenTransfer {
                    from: TokenAccountRole::Vault,
                    to: TokenAccountRole::TreasuryAta,
                    authority: TransferAuthority::UserChallenge,
                    amount: penalty_amount,
                    decimals: BONK_DECIMALS,
                },
            );
        }
        if return_amount > 0 {
            transfers.push(
                TokenTransfer {
                    from: TokenAccountRole::Vault,
                    to: TokenAccountRole::UserTokenAccount,
                    authority: TransferAuthority::UserChallenge,
                    amount: return_amount,
                    decimals: BONK_DECIMALS,
                },
            );
        }
        assert(transfers@ =~= cancel_transfers(c, now));
        Ok((penalty_amount, return_amount, transfers))
    }
}

} // verus!
