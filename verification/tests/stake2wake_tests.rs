use stake2wake::error::Stake2WakeError;
use stake2wake::events::{CancelChallengeEvent, CheckStatusEvent, InitializeEvent, StartChallengeEvent, WithdrawEvent};
use stake2wake::instructions::cancel_challenge::CancelChallenge;
use stake2wake::instructions::check_status::CheckStatus;
use stake2wake::instructions::initialize::{Initialize, InitializeBumps};
use stake2wake::instructions::start_challenge::{StartChallenge, StartChallengeBumps};
use stake2wake::instructions::withdraw::Withdraw;
use stake2wake::pubkey::{admin_pubkey, parse_pubkey, Pubkey, ADMIN_PUBKEY};
use stake2wake::stake2wake::{
    cancel_challenge, check_status, initialize, initialize_with_admin, start_challenge, treasury_withdraw,
    treasury_withdraw_with_admin,
};
use stake2wake::state::{
    Account, ChallengeAccount, Clock, Mint, TokenAccountRole, TokenTransfer, TransferAuthority,
    Treasury,
};

const ADMIN_BYTES: [u8; 32] = [
    161, 174, 183, 5, 142, 13, 94, 219, 58, 18, 190, 180, 132, 49, 135, 171, 154, 231, 189, 196, 127, 46,
    235, 122, 243, 31, 17, 171, 49, 200, 39, 36,
];

fn key(n: u8) -> Pubkey {
    Pubkey::new_from_array([n; 32])
}

fn admin() -> Pubkey {
    Pubkey::new_from_array(ADMIN_BYTES)
}

fn treasury_data(total: u64) -> Treasury {
    Treasury { authority: admin(), treasury_ata: key(21), bonk_mint: key(20), total_collected: total, bump: 250 }
}

fn challenge(user: Pubkey) -> ChallengeAccount {
    ChallengeAccount {
        user,
        wakeup_time: 25_200,
        stake_amount: 1000,
        is_active: true,
        mint: key(20),
        vault: key(4),
        start_time: 0,
        end_time: 3 * 86400,
        last_check_time: 0,
        completed_days: 0,
        total_days: 3,
        bump: 254,
    }
}

fn check_accounts(c: ChallengeAccount, now: i64) -> CheckStatus {
    CheckStatus {
        user: key(1),
        user_challenge: Account { key: key(2), data: c },
        user_token_account: key(3),
        bonk_mint: key(20),
        vault: key(4),
        treasury: Account { key: key(5), data: treasury_data(0) },
        treasury_ata: key(21),
        clock: Clock { unix_timestamp: now },
    }
}

fn cancel_accounts(c: ChallengeAccount, now: i64) -> CancelChallenge {
    CancelChallenge {
        user: key(1),
        user_challenge: Account { key: key(2), data: c },
        user_token_account: key(3),
        bonk_mint: key(20),
        vault: key(4),
        treasury: Account { key: key(5), data: treasury_data(100) },
        treasury_ata: key(21),
        clock: Clock { unix_timestamp: now },
    }
}

fn start_accounts(now: i64) -> StartChallenge {
    StartChallenge {
        user: key(1),
        user_challenge: Account { key: key(2), data: challenge(key(9)) },
        user_token_account: key(3),
        bonk_mint: key(20),
        vault: key(4),
        clock: Clock { unix_timestamp: now },
    }
}

fn withdraw_accounts(authority: Pubkey, total: u64) -> Withdraw {
    Withdraw {
        authority,
        authority_ata: key(6),
        treasury: Account { key: key(5), data: treasury_data(total) },
        treasury_ata: key(21),
        bonk_mint: Account { key: key(20), data: Mint { decimals: 5 } },
    }
}

// ---- addresses ----

#[test]
fn admin_pubkey_decodes_the_named_address() {
    assert_eq!(admin_pubkey(), Some(admin()));
    assert_eq!(parse_pubkey(ADMIN_PUBKEY), Some(admin()));
}

#[test]
fn parse_pubkey_refuses_bad_text() {
    assert_eq!(parse_pubkey("0OIl"), None);
    assert_eq!(parse_pubkey("Bt9AAsmv7ocm2kJsusYrk2gG1Sm6Fy6rS6dRtiC8xFGXBt9A"), None);
    assert_eq!(parse_pubkey("11111111111111111111111111111111"), Some(key(0)));
}

#[test]
fn pubkey_equality_compares_bytes() {
    assert!(key(3) == key(3));
    assert!(key(3) != key(4));
    let mut b = [7u8; 32];
    b[31] = 8;
    assert!(Pubkey::new_from_array(b) != key(7));
    assert_eq!(key(7).to_bytes(), [7u8; 32]);
}

// ---- initialize ----

#[test]
fn initialize_by_admin_sets_up_treasury() {
    let mut accounts = Initialize {
        authority: admin(),
        treasury: Account { key: key(5), data: treasury_data(77) },
        bonk_mint: key(20),
        treasury_ata: key(21),
    };
    let r = initialize(&mut accounts, &InitializeBumps { treasury: 253 });
    assert_eq!(
        r,
        Some(Ok(InitializeEvent {
            authority: admin(),
            treasury: key(5),
            bonk_mint: key(20),
            treasury_ata: key(21),
            total_collected: 0,
        }))
    );
    assert_eq!(
        accounts.treasury.data,
        Treasury { authority: admin(), treasury_ata: key(21), bonk_mint: key(20), total_collected: 0, bump: 253 }
    );
}

#[test]
fn initialize_by_other_is_unauthorized() {
    let mut accounts = Initialize {
        authority: key(1),
        treasury: Account { key: key(5), data: treasury_data(77) },
        bonk_mint: key(20),
        treasury_ata: key(21),
    };
    let before = accounts;
    assert_eq!(initialize(&mut accounts, &InitializeBumps { treasury: 253 }), Some(Err(Stake2WakeError::Unauthorized)));
    assert_eq!(accounts, before);
    assert_eq!(
        initialize_with_admin(&mut accounts, &key(1), &InitializeBumps { treasury: 1 }).map(|e| e.total_collected),
        Ok(0)
    );
    assert_eq!(accounts.treasury.data.authority, key(1));
}

// ---- start_challenge ----

#[test]
fn start_challenge_records_and_stakes() {
    let mut accounts = start_accounts(1_000);
    let r = start_challenge(&mut accounts, 12345, 5_000, 500, 7, &StartChallengeBumps { user_challenge: 200 });
    let (event, transfer) = r.unwrap();
    assert_eq!(
        event,
        StartChallengeEvent {
            user: key(1),
            user_challenge: key(2),
            user_token_account: key(3),
            bonk_mint: key(20),
            vault: key(4),
            wakeup_time: 5_000,
            stake_amount: 500,
            total_days: 7,
        }
    );
    assert_eq!(
        transfer,
        TokenTransfer {
            from: TokenAccountRole::UserTokenAccount,
            to: TokenAccountRole::Vault,
            authority: TransferAuthority::User,
            amount: 500,
            decimals: 6,
        }
    );
    assert_eq!(
        accounts.user_challenge.data,
        ChallengeAccount {
            user: key(1),
            wakeup_time: 5_000,
            stake_amount: 500,
            is_active: true,
            mint: key(20),
            vault: key(4),
            start_time: 1_000,
            end_time: 1_000 + 7 * 86400,
            last_check_time: 0,
            completed_days: 0,
            total_days: 7,
            bump: 200,
        }
    );
}

#[test]
fn start_challenge_refusals_in_order() {
    let bumps = StartChallengeBumps { user_challenge: 1 };
    let mut accounts = start_accounts(1_000);
    let before = accounts;
    assert_eq!(
        accounts.start_challenge(999, 0, 0, &bumps),
        Err(Stake2WakeError::InvalidStakeAmount)
    );
    assert_eq!(accounts.start_challenge(999, 10, 0, &bumps), Err(Stake2WakeError::InvalidTotalDays));
    assert_eq!(accounts.start_challenge(1_000, 10, 1, &bumps), Err(Stake2WakeError::InvalidWakeupTime));
    assert_eq!(accounts, before);
    assert!(accounts.start_challenge(1_001, 10, 1, &bumps).is_ok());
}

#[test]
fn start_challenge_negative_clock_counts_as_large() {
    let bumps = StartChallengeBumps { user_challenge: 1 };
    let mut accounts = start_accounts(-1);
    assert_eq!(accounts.start_challenge(5, 10, 1, &bumps), Err(Stake2WakeError::InvalidWakeupTime));
}

// ---- check_status ----

const SEVEN_AM: i64 = 25_200;

fn vault_to(to: TokenAccountRole, amount: u64) -> TokenTransfer {
    TokenTransfer { from: TokenAccountRole::Vault, to, authority: TransferAuthority::UserChallenge, amount, decimals: 6 }
}

#[test]
fn check_status_on_time_counts_a_day_and_keeps_stake() {
    let mut accounts = check_accounts(challenge(key(1)), 86400 + SEVEN_AM + 100);
    let before = accounts;
    let (event, transfer) = check_status(&mut accounts).unwrap();
    assert_eq!(transfer, None);
    assert_eq!(
        event,
        CheckStatusEvent {
            user: key(1),
            user_challenge: key(2),
            completed_days: 1,
            last_check_time: 86400 + 25_300,
            is_active: true,
            did_complete: true,
            was_failed: false,
            tokens_returned: false,
        }
    );
    let c = accounts.user_challenge.data;
    assert_eq!(c.completed_days, 1);
    assert_eq!(c.last_check_time, 86400 + 25_300);
    assert!(c.is_active);
    assert_eq!(accounts.treasury, before.treasury);
}

#[test]
fn check_status_last_day_ends_challenge_and_returns_stake() {
    let mut c = challenge(key(1));
    c.completed_days = 2;
    c.last_check_time = 86400 + 25_250;
    let mut accounts = check_accounts(c, 2 * 86400 + SEVEN_AM + 10);
    let (event, transfer) = check_status(&mut accounts).unwrap();
    assert_eq!(transfer, Some(vault_to(TokenAccountRole::UserTokenAccount, 1000)));
    assert_eq!(event.completed_days, 3);
    assert!(!event.is_active);
    assert!(event.did_complete);
    assert!(event.tokens_returned);
    assert!(!event.was_failed);
    assert!(!accounts.user_challenge.data.is_active);
    assert_eq!(accounts.treasury.data.total_collected, 0);
}

#[test]
fn check_status_missed_window_slashes_stake() {
    // 09:00, after the 07:00-07:15 window
    let mut accounts = check_accounts(challenge(key(1)), 86400 + 32_400);
    let (event, transfer) = check_status(&mut accounts).unwrap();
    assert_eq!(transfer, Some(vault_to(TokenAccountRole::TreasuryAta, 1000)));
    assert!(!event.did_complete);
    assert!(event.was_failed);
    assert!(!event.tokens_returned);
    assert!(!event.is_active);
    assert_eq!(event.completed_days, 0);
    let c = accounts.user_challenge.data;
    assert!(!c.is_active);
    assert_eq!(c.completed_days, 0);
    assert_eq!(c.last_check_time, 0);
    assert_eq!(accounts.treasury.data.total_collected, 1000);
}

#[test]
fn check_status_before_wakeup_does_not_count() {
    // 03:00, hours before the window
    let mut accounts = check_accounts(challenge(key(1)), 86400 + 10_800);
    let (event, transfer) = check_status(&mut accounts).unwrap();
    assert!(!event.did_complete);
    assert_eq!(accounts.user_challenge.data.completed_days, 0);
    assert_eq!(transfer, Some(vault_to(TokenAccountRole::TreasuryAta, 1000)));
}

#[test]
fn check_status_window_edges() {
    // the wake-up time itself and the end of the grace period are on time
    for t in [SEVEN_AM, SEVEN_AM + 900] {
        let mut accounts = check_accounts(challenge(key(1)), 86400 + t);
        assert!(check_status(&mut accounts).unwrap().0.did_complete);
    }
    // one second before or after is not
    for t in [SEVEN_AM - 1, SEVEN_AM + 901] {
        let mut accounts = check_accounts(challenge(key(1)), 86400 + t);
        assert!(!check_status(&mut accounts).unwrap().0.did_complete);
    }
}

#[test]
fn check_status_window_past_midnight() {
    let mut c = challenge(key(1));
    c.wakeup_time = 86_100; // 23:55
    let mut accounts = check_accounts(c, 2 * 86400 + 300); // 00:05
    assert!(check_status(&mut accounts).unwrap().0.did_complete);
    let mut accounts = check_accounts(c, 2 * 86400 + 601); // one second past the grace
    assert!(!check_status(&mut accounts).unwrap().0.did_complete);
}

#[test]
fn check_status_refusals() {
    // not the owner
    let mut accounts = check_accounts(challenge(key(9)), 86400 + SEVEN_AM);
    let before = accounts;
    assert_eq!(check_status(&mut accounts), Err(Stake2WakeError::Unauthorized));
    assert_eq!(accounts, before);

    // inactive
    let mut c = challenge(key(1));
    c.is_active = false;
    let mut accounts = check_accounts(c, 86400 + SEVEN_AM);
    assert_eq!(check_status(&mut accounts), Err(Stake2WakeError::InactiveChallenge));

    // already checked in on this day
    let mut c = challenge(key(1));
    c.completed_days = 1;
    c.last_check_time = 86400 + SEVEN_AM as u64;
    let mut accounts = check_accounts(c, 86400 + SEVEN_AM + 300);
    let before = accounts;
    assert_eq!(check_status(&mut accounts), Err(Stake2WakeError::AlreadyCheckedInToday));
    assert_eq!(accounts, before);
}

#[test]
fn check_status_once_per_day() {
    let mut accounts = check_accounts(challenge(key(1)), 86400 + SEVEN_AM + 100);
    assert!(check_status(&mut accounts).is_ok());
    accounts.clock.unix_timestamp = 2 * 86400 - 1;
    assert_eq!(check_status(&mut accounts), Err(Stake2WakeError::AlreadyCheckedInToday));
    accounts.clock.unix_timestamp = 2 * 86400 + SEVEN_AM;
    assert!(check_status(&mut accounts).is_ok());
    assert_eq!(accounts.user_challenge.data.completed_days, 2);
}

#[test]
fn started_challenge_checked_in_daily_returns_stake() {
    // started on day 10 at midnight, wake-up at 07:00, three days
    let start = 864_000;
    let mut s = start_accounts(start);
    s.user_challenge.data.user = key(9);
    let (_, stake) = start_challenge(&mut s, 0, 889_200, 1000, 3, &StartChallengeBumps { user_challenge: 7 })
        .unwrap();
    assert_eq!(stake.amount, 1000);
    let mut accounts = check_accounts(s.user_challenge.data, 0);
    let mut moved = Vec::new();
    for day in 0..3 {
        accounts.clock.unix_timestamp = start + day * 86400 + SEVEN_AM + 300;
        assert!(accounts.runs_without_overflow());
        let (event, transfer) = check_status(&mut accounts).unwrap();
        assert!(event.did_complete);
        assert_eq!(event.completed_days, day as u64 + 1);
        moved.push(transfer);
    }
    assert_eq!(moved, vec![None, None, Some(vault_to(TokenAccountRole::UserTokenAccount, 1000))]);
    assert!(!accounts.user_challenge.data.is_active);
    assert_eq!(check_status(&mut accounts), Err(Stake2WakeError::InactiveChallenge));
}

#[test]
fn first_check_in_after_positive_start() {
    let mut c = challenge(key(1));
    c.start_time = 864_000;
    c.end_time = 1_468_800;
    c.wakeup_time = 889_200;
    c.total_days = 7;
    let mut accounts = check_accounts(c, 975_900);
    assert!(accounts.runs_without_overflow());
    let (event, transfer) = check_status(&mut accounts).unwrap();
    assert!(event.did_complete);
    assert_eq!(transfer, None);
    let c = accounts.user_challenge.data;
    assert_eq!(c.completed_days, 1);
    assert_eq!(c.last_check_time, 975_900);
    assert!(c.is_active);
}

// ---- cancel_challenge ----

#[test]
fn cancel_early_costs_twenty_percent() {
    // 10% of a 3-day challenge has elapsed
    let mut accounts = cancel_accounts(challenge(key(1)), 25920);
    let (event, transfers) = cancel_challenge(&mut accounts).unwrap();
    assert_eq!(
        transfers,
        vec![
            TokenTransfer {
                from: TokenAccountRole::Vault,
                to: TokenAccountRole::TreasuryAta,
                authority: TransferAuthority::UserChallenge,
                amount: 200,
                decimals: 6,
            },
            TokenTransfer {
                from: TokenAccountRole::Vault,
                to: TokenAccountRole::UserTokenAccount,
                authority: TransferAuthority::UserChallenge,
                amount: 800,
                decimals: 6,
            },
        ]
    );
    assert_eq!(
        event,
        CancelChallengeEvent {
            user: key(1),
            user_challenge: key(2),
            penalty_amount: 200,
            return_amount: 800,
            vault: key(4),
            treasury_ata: key(21),
            timestamp: 25920,
        }
    );
    assert!(!accounts.user_challenge.data.is_active);
    assert_eq!(accounts.treasury.data.total_collected, 300);
}

#[test]
fn cancel_midway_interpolates() {
    // progress 50%: 20 - (25 * 15) / 50 = 13%
    let mut accounts = cancel_accounts(challenge(key(1)), 3 * 86400 / 2);
    let transfers = accounts.cancel_challenge().unwrap().2;
    assert_eq!(transfers[0].amount, 130);
    assert_eq!(transfers[1].amount, 870);
    // progress 30%: 20 - (5 * 15) / 50 = 19%
    let mut accounts = cancel_accounts(challenge(key(1)), 3 * 86400 * 3 / 10);
    let transfers = accounts.cancel_challenge().unwrap().2;
    assert_eq!(transfers[0].amount, 190);
    assert_eq!(transfers[1].amount, 810);
}

#[test]
fn cancel_late_costs_five_percent() {
    let mut accounts = cancel_accounts(challenge(key(1)), 3 * 86400 * 4 / 5);
    let transfers = accounts.cancel_challenge().unwrap().2;
    assert_eq!(transfers[0].amount, 50);
    assert_eq!(transfers[1].amount, 950);
    // after the end as well
    let mut accounts = cancel_accounts(challenge(key(1)), 10 * 86400);
    let transfers = accounts.cancel_challenge().unwrap().2;
    assert_eq!(transfers[0].amount, 50);
}

#[test]
fn cancel_small_stake_has_no_penalty_transfer() {
    let mut c = challenge(key(1));
    c.stake_amount = 4;
    let mut accounts = cancel_accounts(c, 10);
    let transfers = accounts.cancel_challenge().unwrap().2;
    assert_eq!(
        transfers,
        vec![TokenTransfer {
            from: TokenAccountRole::Vault,
            to: TokenAccountRole::UserTokenAccount,
            authority: TransferAuthority::UserChallenge,
            amount: 4,
            decimals: 6,
        }]
    );
    assert_eq!(accounts.treasury.data.total_collected, 100);
}

#[test]
fn cancel_without_duration_counts_as_early() {
    let mut c = challenge(key(1));
    c.end_time = 0;
    let mut accounts = cancel_accounts(c, 5 * 86400);
    let transfers = accounts.cancel_challenge().unwrap().2;
    assert_eq!(transfers[0].amount, 200);
}

#[test]
fn cancel_saturates_treasury_total() {
    let mut accounts = cancel_accounts(challenge(key(1)), 10);
    accounts.treasury.data.total_collected = u64::MAX - 5;
    accounts.cancel_challenge().unwrap().2;
    assert_eq!(accounts.treasury.data.total_collected, u64::MAX);
}

#[test]
fn cancel_refusals() {
    let mut accounts = cancel_accounts(challenge(key(9)), 10);
    let before = accounts;
    assert_eq!(cancel_challenge(&mut accounts), Err(Stake2WakeError::Unauthorized));
    assert_eq!(accounts, before);
    let mut c = challenge(key(1));
    c.is_active = false;
    let mut accounts = cancel_accounts(c, 10);
    let before = accounts;
    assert_eq!(cancel_challenge(&mut accounts), Err(Stake2WakeError::InactiveChallenge));
    assert_eq!(accounts, before);
}

#[test]
fn later_cancellation_costs_no_more() {
    let mut last = u64::MAX;
    for t in (0..4 * 86400).step_by(3600) {
        let mut accounts = cancel_accounts(challenge(key(1)), t);
        let transfers = accounts.cancel_challenge().unwrap().2;
        let penalty = transfers[0].amount;
        assert!(penalty <= last);
        assert_eq!(penalty + transfers[1].amount, 1000);
        last = penalty;
    }
}

// ---- withdraw ----

#[test]
fn withdraw_pays_out_collected() {
    let mut accounts = withdraw_accounts(admin(), 300);
    let r = treasury_withdraw(&mut accounts, 120);
    assert_eq!(
        r,
        Some(Ok((
            WithdrawEvent {
                authority: admin(),
                treasury: key(5),
                treasury_ata: key(21),
                authority_ata: key(6),
                bonk_mint: key(20),
                amount: 120,
            },
            TokenTransfer {
                from: TokenAccountRole::TreasuryAta,
                to: TokenAccountRole::AuthorityAta,
                authority: TransferAuthority::Treasury,
                amount: 120,
                decimals: 5,
            }
        )))
    );
    assert_eq!(accounts.treasury.data.total_collected, 180);
    assert!(treasury_withdraw(&mut accounts, 180).unwrap().is_ok());
    assert_eq!(accounts.treasury.data.total_collected, 0);
}

#[test]
fn withdraw_refusals() {
    let mut accounts = withdraw_accounts(admin(), 300);
    let before = accounts;
    assert_eq!(treasury_withdraw(&mut accounts, 301), Some(Err(Stake2WakeError::InsufficientFunds)));
    assert_eq!(accounts, before);
    let mut accounts = withdraw_accounts(key(1), 300);
    let before = accounts;
    assert_eq!(treasury_withdraw(&mut accounts, 1), Some(Err(Stake2WakeError::Unauthorized)));
    assert_eq!(accounts, before);
    assert!(treasury_withdraw_with_admin(&mut accounts, &key(1), 1).is_ok());
    assert_eq!(accounts.withdraw(&key(2), 1), Err(Stake2WakeError::Unauthorized));
}

#[test]
fn cancelled_penalty_can_be_withdrawn() {
    let mut cancel = cancel_accounts(challenge(key(1)), 10);
    let before_total = cancel.treasury.data.total_collected;
    let (_, _, transfers) = cancel.cancel_challenge().unwrap();
    let penalty = transfers[0].amount;
    let mut w = withdraw_accounts(admin(), cancel.treasury.data.total_collected);
    assert!(treasury_withdraw(&mut w, penalty).unwrap().is_ok());
    assert_eq!(w.treasury.data.total_collected, before_total);
}

// ---- inputs on which the steps would overflow ----

#[test]
fn check_in_undefined_inputs() {
    let mut c = challenge(key(1));
    c.start_time = 1_000;
    // a clock before the start
    assert!(!check_accounts(c, 999).runs_without_overflow());
    // a counted check-in recorded before the start
    c.completed_days = 1;
    c.last_check_time = 500;
    assert!(!check_accounts(c, 86400 + SEVEN_AM).runs_without_overflow());
    // no day counted yet: the recorded time is not read
    c.completed_days = 0;
    assert!(check_accounts(c, 86400 + SEVEN_AM).runs_without_overflow());
    // an ended challenge is refused before any arithmetic
    c.is_active = false;
    assert!(check_accounts(c, 0).runs_without_overflow());
    // the count of days at its limit, on time
    let mut c = challenge(key(1));
    c.completed_days = u64::MAX;
    assert!(!check_accounts(c, 86400 + SEVEN_AM).runs_without_overflow());
    // ... but a missed window does not count
    assert!(check_accounts(c, 86400 + 40_000).runs_without_overflow());
}

#[test]
fn cancel_overflow_inputs() {
    let mut c = challenge(key(1));
    c.stake_amount = u64::MAX / 10;
    assert!(!cancel_accounts(c, 10).runs_without_overflow());
    c.stake_amount = u64::MAX / 20;
    assert!(cancel_accounts(c, 10).runs_without_overflow());
    let mut c = challenge(key(1));
    c.end_time = u64::MAX;
    assert!(!cancel_accounts(c, -1).runs_without_overflow());
    assert!(cancel_accounts(c, 86400).runs_without_overflow());
}

#[test]
fn start_overflow_inputs() {
    // u64::MAX leaves 25215 over a whole number of days
    let accounts = start_accounts(25_216);
    assert!(!accounts.runs_without_overflow(50_000, 10, u64::MAX / 86400));
    assert!(start_accounts(25_215).runs_without_overflow(50_000, 10, u64::MAX / 86400));
    assert!(accounts.runs_without_overflow(50_000, 10, 365));
    // refused starts never reach the arithmetic
    assert!(accounts.runs_without_overflow(5_000, 0, u64::MAX));
}

#[test]
fn check_in_at_clock_zero_counts_once() {
    // wake-up at 23:58:20, so 00:00:00 lies in the window
    let mut c = challenge(key(1));
    c.wakeup_time = 86_300;
    let mut accounts = check_accounts(c, 0);
    assert!(check_status(&mut accounts).unwrap().0.did_complete);
    assert_eq!(accounts.user_challenge.data.completed_days, 1);
    let after_first = accounts;
    assert_eq!(check_status(&mut accounts), Err(Stake2WakeError::AlreadyCheckedInToday));
    assert_eq!(accounts, after_first);
}

#[test]
fn cancel_reports_computed_split() {
    let mut c = challenge(key(1));
    c.stake_amount = 4;
    let mut accounts = cancel_accounts(c, 10);
    let (event, transfers) = cancel_challenge(&mut accounts).unwrap();
    assert_eq!(event.penalty_amount, 0);
    assert_eq!(event.return_amount, 4);
    assert_eq!(transfers.len(), 1);
    let mut accounts = cancel_accounts(challenge(key(1)), 3 * 86400 / 2);
    let (penalty, refund, _) = accounts.cancel_challenge().unwrap();
    assert_eq!((penalty, refund), (130, 870));
}
