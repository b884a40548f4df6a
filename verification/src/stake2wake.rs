//! The program's instructions as a whole: the account constraints that the
//! program states on its accounts, the instruction's step, and the record it
//! logs.

use vstd::prelude::*;
use crate::error::Stake2WakeError;
use crate::events::{
    CancelChallengeEvent, CheckStatusEvent, InitializeEvent, StartChallengeEvent, WithdrawEvent,
};
use crate::instructions::cancel_challenge::{
    cancel_defined, cancel_penalty, cancel_refund, cancel_transfers, collected_after_cancel,
    CancelChallenge,
};
use crate::instructions::check_status::{
    check_in, check_in_defined, check_in_transfer, in_wakeup_window, treasury_after_check_in, CheckStatus,
};
use crate::instructions::initialize::{Initialize, InitializeBumps};
use crate::instructions::start_challenge::{
    new_challenge, stake_transfer, start_defined, start_refusal, StartChallenge, StartChallengeBumps,
};
use crate::instructions::withdraw::{withdraw_refusal, Withdraw};
use crate::pubkey::{admin_key, admin_pubkey, Pubkey};
use crate::state::{Account, ChallengeAccount, TokenTransfer, Treasury};

verus! {

/// The treasury data that a set-up by `s.authority` records.
pub open spec fn initialized_treasury(s: Initialize, bumps: InitializeBumps) -> Treasury {
    Treasury {
        authority: s.authority,
        bonk_mint: s.bonk_mint,
        treasury_ata: s.treasury_ata,
        bump: bumps.treasury,
        total_collected: 0,
    }
}

/// The record of a set-up of the treasury.
pub open spec fn initialize_event(s: Initialize) -> InitializeEvent {
    InitializeEvent {
        authority: s.authority,
        treasury: s.treasury.key,
        bonk_mint: s.bonk_mint,
        treasury_ata: s.treasury_ata,
        total_collected: 0,
    }
}

/// Sets up the treasury, given the treasury authority `admin`: refused with
/// `Unauthorized`, and nothing changed, unless the signer is `admin`.
pub fn initialize_with_admin(accounts: &mut Initialize, admin: &Pubkey, bumps: &InitializeBumps) -> (r:
    Result<InitializeEvent, Stake2WakeError>)
    ensures
        old(accounts).authority@ == admin@ ==> {
            &&& r == Ok::<InitializeEvent, Stake2WakeError>(initialize_event(*old(accounts)))
            &&& *final(accounts) == (Initialize {
                treasury: Account {
                    key: old(accounts).treasury.key,
                    data: initialized_treasury(*old(accounts), *bumps),
                },
                ..*old(accounts)
            })
        },
        old(accounts).authority@ != admin@ ==> {
            &&& r == Err::<InitializeEvent, Stake2WakeError>(Stake2WakeError::Unauthorized)
            &&& *final(accounts) == *old(accounts)
        },
{
    match accounts.initialize_treasury(admin, bumps) {
        Err(e) => Err(e),
        Ok(()) => Ok(
            InitializeEvent {
                authority: accounts.authority,
                treasury: accounts.treasury.key(),
                bonk_mint: accounts.bonk_mint,
                treasury_ata: accounts.treasury_ata,
                total_collected: 0,
            },
        ),
    }
}

/// Sets up the treasury; only the authority whose address the program names
/// may do so. `None`, with nothing changed, where that address does not
/// parse.
pub fn initialize(accounts: &mut Initialize, bumps: &InitializeBumps) -> (r: Option<
    Result<InitializeEvent, Stake2WakeError>,
>)
    ensures
        admin_key() is None ==> r is None && *final(accounts) == *old(accounts),
        admin_key() matches Some(k) ==> {
            &&& r is Some
            &&& old(accounts).authority@ == k ==> {
                &&& r == Some(Ok::<InitializeEvent, Stake2WakeError>(initialize_event(*old(accounts))))
                &&& *final(accounts) == (Initialize {
                    treasury: Account {
                        key: old(accounts).treasury.key,
                        data: initialized_treasury(*old(accounts), *bumps),
                    },
                    ..*old(accounts)
                })
            }
            &&& old(accounts).authority@ != k ==> {
                &&& r == Some(Err::<InitializeEvent, Stake2WakeError>(Stake2WakeError::Unauthorized))
                &&& *final(accounts) == *old(accounts)
            }
        },
{
    match admin_pubkey() {
        None => None,
        Some(admin) => Some(initialize_with_admin(accounts, &admin, bumps)),
    }
}

/// The record of an accepted start.
pub open spec fn start_challenge_event(
    s: StartChallenge,
    wakeup_time: u64,
    stake_amount: u64,
    total_days: u64,
) -> StartChallengeEvent {
    StartChallengeEvent {
        user: s.user,
        user_challenge: s.user_challenge.key,
        user_token_account: s.user_token_account,
        bonk_mint: s.bonk_mint,
        vault: s.vault,
        wakeup_time,
        stake_amount,
        total_days,
    }
}

/// Starts a challenge at the clock's time (the `start_time` argument is not
/// read): on acceptance the challenge is recorded, the stake moves to the
/// vault and the start is logged; a refused start changes nothing.
pub fn start_challenge(
    accounts: &mut StartChallenge,
    start_time: u64,
    wakeup_time: u64,
    stake_amount: u64,
    total_days: u64,
    bumps: &StartChallengeBumps,
) -> (r: Result<(StartChallengeEvent, TokenTransfer), Stake2WakeError>)
    requires
        start_defined(wakeup_time, stake_amount, total_days, old(accounts).clock.now_spec()),
    ensures
        match start_refusal(wakeup_time, stake_amount, total_days, old(accounts).clock.now_spec()) {
            Some(e) => r == Err::<(StartChallengeEvent, TokenTransfer), Stake2WakeError>(e)
                && *final(accounts) == *old(accounts),
            None => {
                &&& r == Ok::<(StartChallengeEvent, TokenTransfer), Stake2WakeError>(
                    (
                        start_challenge_event(*old(accounts), wakeup_time, stake_amount, total_days),
                        stake_transfer(stake_amount),
                    ),
                )
                &&& *final(accounts) == (StartChallenge {
                    user_challenge: Account {
                        key: old(accounts).user_challenge.key,
                        data: new_challenge(
                            *old(accounts),
                            wakeup_time,
                            stake_amount,
                            total_days,
                            bumps.user_challenge,
                        ),
                    },
                    ..*old(accounts)
                })
            },
        },
{
    match accounts.start_challenge(wakeup_time, stake_amount, total_days, bumps) {
        Err(e) => Err(e),
        Ok(transfer) => {
            let event = StartChallengeEvent {
                user: accounts.user,
                user_challenge: accounts.user_challenge.key(),
                user_token_account: accounts.user_token_account,
                bonk_mint: accounts.bonk_mint,
                vault: accounts.vault,
                wakeup_time,
                stake_amount,
                total_days,
            };
            Ok((event, transfer))
        },
    }
}

/// The record of a check-in that left the challenge as `c`, given whether it
/// was on time: the stake counts as returned when the check-in completed the
/// last day, and the challenge as failed when it ended otherwise.
pub open spec fn check_status_event(s: CheckStatus, c: ChallengeAccount, did_complete: bool) -> CheckStatusEvent {
    let tokens_returned = did_complete && c.completed_days == c.total_days;
    CheckStatusEvent {
        user: s.user,
        user_challenge: s.user_challenge.key,
        completed_days: c.completed_days,
        last_check_time: c.last_check_time,
        is_active: c.is_active,
        did_complete,
        tokens_returned,
        was_failed: !c.is_active && !tokens_returned,
    }
}

/// Checks the user in: refused with `Unauthorized` unless the signer owns the
/// challenge, and otherwise as the check-in step decides; an accepted
/// check-in moves the stake where the step says (back to the user on the
/// completing day, to the treasury on a missed window, nowhere otherwise) and
/// is logged. A refused check-in changes nothing.
pub fn check_status(accounts: &mut CheckStatus) -> (r: Result<
    (CheckStatusEvent, Option<TokenTransfer>),
    Stake2WakeError,
>)
    requires
        old(accounts).user_challenge.data.user@ == old(accounts).user@ ==> check_in_defined(
            old(accounts).user_challenge.data,
            old(accounts).clock.now_spec(),
        ),
    ensures
        old(accounts).user_challenge.data.user@ != old(accounts).user@ ==> {
            &&& r == Err::<(CheckStatusEvent, Option<TokenTransfer>), Stake2WakeError>(
                Stake2WakeError::Unauthorized,
            )
            &&& *final(accounts) == *old(accounts)
        },
        old(accounts).user_challenge.data.user@ == old(accounts).user@ ==> match check_in(
            old(accounts).user_challenge.data,
            old(accounts).clock.now_spec(),
        ) {
            Err(e) => r == Err::<(CheckStatusEvent, Option<TokenTransfer>), Stake2WakeError>(e)
                && *final(accounts) == *old(accounts),
            Ok(c) => {
                let c0 = old(accounts).user_challenge.data;
                let now = old(accounts).clock.now_spec();
                &&& r == Ok::<(CheckStatusEvent, Option<TokenTransfer>), Stake2WakeError>(
                    (
                        check_status_event(*old(accounts), c, in_wakeup_window(c0, now)),
                        check_in_transfer(c0, now),
                    ),
                )
                &&& *final(accounts) == (CheckStatus {
                    user_challenge: Account { key: old(accounts).user_challenge.key, data: c },
                    treasury: Account {
                        key: old(accounts).treasury.key,
                        data: treasury_after_check_in(old(accounts).treasury.data, c0, now),
                    },
                    ..*old(accounts)
                })
            },
        },
{
    if accounts.user_challenge.data.user != accounts.user {
        return Err(Stake2WakeError::Unauthorized);
    }
    let (did_complete, transfer) = match accounts.check_status() {
        Err(e) => {
            return Err(e);
        },
        Ok(outcome) => outcome,
    };
    let challenge = &accounts.user_challenge.data;

    let tokens_returned = did_complete && challenge.completed_days == challenge.total_days;
    let was_failed = !challenge.is_active && !tokens_returned;

    let event = CheckStatusEvent {
        user: accounts.user,
        user_challenge: accounts.user_challenge.key(),
        completed_days: challenge.completed_days,
        last_check_time: challenge.last_check_time,
        is_active: challenge.is_active,
        did_complete,
        tokens_returned,
        was_failed,
    };
    Ok((event, transfer))
}

/// The record of a cancellation at the clock's time: the penalty sent to the
/// treasury and the rest of the stake returned to the user.
pub open spec fn cancel_challenge_event(s: CancelChallenge) -> CancelChallengeEvent {
    let c = s.user_challenge.data;
    let now = s.clock.now_spec();
    CancelChallengeEvent {
        user: s.user,
        user_challenge: s.user_challenge.key,
        penalty_amount: cancel_penalty(c, now) as u64,
        return_amount: cancel_refund(c, now) as u64,
        vault: s.vault,
        treasury_ata: s.treasury_ata,
        timestamp: now,
    }
}

/// Cancels a challenge: refused with `Unauthorized` unless the signer owns
/// it, and with `InactiveChallenge` once it has ended; otherwise the penalty
/// goes to the treasury, the rest of the stake back to the user, and the
/// cancellation is logged. A refused cancellation changes nothing. (The
/// runtime then closes the challenge account in favour of the user.)
pub fn cancel_challenge(accounts: &mut CancelChallenge) -> (r: Result<
    (CancelChallengeEvent, Vec<TokenTransfer>),
    Stake2WakeError,
>)
    requires
        old(accounts).user_challenge.data.user@ == old(accounts).user@ ==> cancel_defined(
            old(accounts).user_challenge.data,
            old(accounts).clock.now_spec(),
        ),
    ensures
        old(accounts).user_challenge.data.user@ != old(accounts).user@ ==> {
            &&& r matches Err(e) && e == Stake2WakeError::Unauthorized
            &&& *final(accounts) == *old(accounts)
        },
        old(accounts).user_challenge.data.user@ == old(accounts).user@
            && !old(accounts).user_challenge.data.is_active ==> {
            &&& r matches Err(e) && e == Stake2WakeError::InactiveChallenge
            &&& *final(accounts) == *old(accounts)
        },
        old(accounts).user_challenge.data.user@ == old(accounts).user@
            && old(accounts).user_challenge.data.is_active ==> {
            let c = old(accounts).user_challenge.data;
            let now = old(accounts).clock.now_spec();
            &&& r matches Ok((event, transfers)) && event == cancel_challenge_event(*old(accounts))
                && transfers@ == cancel_transfers(c, now)
            &&& *final(accounts) == (CancelChallenge {
                user_challenge: Account {
                    key: old(accounts).user_challenge.key,
                    data: ChallengeAccount { is_active: false, ..c },
                },
                treasury: Account {
                    key: old(accounts).treasury.key,
                    data: Treasury {
                        total_collected: collected_after_cancel(old(accounts).treasury.data, c, now),
                        ..old(accounts).treasury.data
                    },
                },
                ..*old(accounts)
            })
        },
{
    if accounts.user_challenge.data.user != accounts.user {
        return Err(Stake2WakeError::Unauthorized);
    }
    let (penalty_amount, return_amount, transfers) = match accounts.cancel_challenge() {
        Err(e) => {
            return Err(e);
        },
        Ok(outcome) => outcome,
    };
    let timestamp = accounts.clock.now();

    let event = CancelChallengeEvent {
        user: accounts.user,
        user_challenge: accounts.user_challenge.key(),
        penalty_amount,
        return_amount,
        vault: accounts.vault,
        treasury_ata: accounts.treasury_ata,
        timestamp,
    };
    Ok((event, transfers))
}

/// The record of a withdrawal of `amount`.
pub open spec fn withdraw_event(s: Withdraw, amount: u64) -> WithdrawEvent {
    WithdrawEvent {
        amount,
        authority: s.authority,
        authority_ata: s.authority_ata,
        bonk_mint: s.bonk_mint.key,
        treasury: s.treasury.key,
        treasury_ata: s.treasury_ata,
    }
}

/// The transfer of an accepted withdrawal of `amount`.
pub open spec fn withdraw_transfer(s: Withdraw, amount: u64) -> TokenTransfer {
    TokenTransfer {
        from: crate::state::TokenAccountRole::TreasuryAta,
        to: crate::state::TokenAccountRole::AuthorityAta,
        authority: crate::state::TransferAuthority::Treasury,
        amount,
        decimals: s.bonk_mint.data.decimals,
    }
}

/// The accounts after an accepted withdrawal of `amount`.
pub open spec fn after_withdraw(s: Withdraw, amount: u64) -> Withdraw {
    Withdraw {
        treasury: Account {
            key: s.treasury.key,
            data: Treasury { total_collected: (s.treasury.data.total_collected - amount) as u64, ..s.treasury.data },
        },
        ..s
    }
}

/// Pays `amount` out of the treasury, given the treasury authority `admin`:
/// refused as the withdrawal step decides, with nothing changed; on
/// acceptance the tokens move and the withdrawal is logged.
pub fn treasury_withdraw_with_admin(accounts: &mut Withdraw, admin: &Pubkey, amount: u64) -> (r: Result<
    (WithdrawEvent, TokenTransfer),
    Stake2WakeError,
>)
    ensures
        match withdraw_refusal(*old(accounts), admin@, amount) {
            Some(e) => r == Err::<(WithdrawEvent, TokenTransfer), Stake2WakeError>(e) && *final(accounts)
                == *old(accounts),
            None => {
                &&& r == Ok::<(WithdrawEvent, TokenTransfer), Stake2WakeError>(
                    (withdraw_event(*old(accounts), amount), withdraw_transfer(*old(accounts), amount)),
                )
                &&& *final(accounts) == after_withdraw(*old(accounts), amount)
            },
        },
{
    match accounts.withdraw(admin, amount) {
        Err(e) => Err(e),
        Ok(transfer) => {
            let event = WithdrawEvent {
                amount,
                authority: accounts.authority,
                authority_ata: accounts.authority_ata,
                bonk_mint: accounts.bonk_mint.key(),
                treasury: accounts.treasury.key(),
                treasury_ata: accounts.treasury_ata,
            };
            Ok((event, transfer))
        },
    }
}

/// Pays `amount` out of the treasury to the authority whose address the
/// program names. `None`, with nothing changed, where that address does not
/// parse.
pub fn treasury_withdraw(accounts: &mut Withdraw, amount: u64) -> (r: Option<
    Result<(WithdrawEvent, TokenTransfer), Stake2WakeError>,
>)
    ensures
        admin_key() is None ==> r is None && *final(accounts) == *old(accounts),
        admin_key() matches Some(k) ==> match withdraw_refusal(*old(accounts), k, amount) {
            Some(e) => r == Some(Err::<(WithdrawEvent, TokenTransfer), Stake2WakeError>(e))
                && *final(accounts) == *old(accounts),
            None => {
                &&& r == Some(
                    Ok::<(WithdrawEvent, TokenTransfer), Stake2WakeError>(
                        (withdraw_event(*old(accounts), amount), withdraw_transfer(*old(accounts), amount)),
                    ),
                )
                &&& *final(accounts) == after_withdraw(*old(accounts), amount)
            },
        },
{
    match admin_pubkey() {
        None => None,
        Some(admin) => Some(treasury_withdraw_with_admin(accounts, &admin, amount)),
    }
}

} // verus!
