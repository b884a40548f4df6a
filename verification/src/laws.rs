//! Properties of the program that span its instructions.

use vstd::prelude::*;
use vstd::arithmetic::div_mod::{lemma_div_is_ordered, lemma_fundamental_div_mod, lemma_mod_pos_bound};
use vstd::arithmetic::mul::lemma_mul_inequality;
use crate::error::Stake2WakeError;
use crate::instructions::cancel_challenge::{
    cancel_penalty, cancel_progress, cancel_refund, cancel_transfers, collected_after_cancel,
    lemma_cancel_penalty_bounds, lemma_penalty_percentage_bounds, minus_or_zero, penalty_percentage,
};
use crate::instructions::check_status::{
    challenge_day, check_in, check_in_defined, check_in_transfer, checked_in_today, in_wakeup_window,
    never_checked_in, treasury_after_check_in, CheckStatus,
};
use crate::instructions::start_challenge::{
    new_challenge, stake_transfer, start_defined, start_refusal, StartChallenge,
};
use crate::instructions::withdraw::{withdraw_refusal, Withdraw};
use crate::stake2wake::{after_withdraw, check_status_event, withdraw_transfer};
use crate::state::{
    ChallengeAccount, TokenAccountRole, TokenTransfer, TransferAuthority, Treasury, BONK_DECIMALS,
};

verus! {

/// A challenge's day count is consistent: it never exceeds the number of
/// days, and an active challenge still has days to go.
pub open spec fn challenge_wf(c: ChallengeAccount) -> bool {
    &&& c.completed_days <= c.total_days
    &&& c.is_active ==> c.completed_days < c.total_days
}

/// A challenge that a start records is active, has no day counted, and is
/// consistent.
pub proof fn lemma_start_establishes_wf(
    s: StartChallenge,
    wakeup_time: u64,
    stake_amount: u64,
    total_days: u64,
    bump: u8,
)
    requires
        start_refusal(wakeup_time, stake_amount, total_days, s.clock.now_spec()) is None,
    ensures
        challenge_wf(new_challenge(s, wakeup_time, stake_amount, total_days, bump)),
        new_challenge(s, wakeup_time, stake_amount, total_days, bump).is_active,
        new_challenge(s, wakeup_time, stake_amount, total_days, bump).completed_days == 0,
{
}

/// An accepted check-in keeps the challenge consistent: an on-time one
/// counts exactly one more day, records its time and ends the challenge
/// exactly when the last day is counted; a missed one ends the challenge with
/// its count unchanged.
pub proof fn lemma_check_in_preserves_wf(c: ChallengeAccount, now: u64)
    requires
        challenge_wf(c),
        check_in(c, now) is Ok,
    ensures
        check_in(c, now) matches Ok(c1) && {
            &&& challenge_wf(c1)
            &&& in_wakeup_window(c, now) ==> {
                &&& c1.completed_days == c.completed_days + 1
                &&& c1.last_check_time == now
                &&& c1.is_active <==> c1.completed_days < c1.total_days
            }
            &&& !in_wakeup_window(c, now) ==> !c1.is_active && c1.completed_days == c.completed_days
            &&& c1.stake_amount == c.stake_amount
            &&& c1.start_time == c.start_time
            &&& c1.wakeup_time == c.wakeup_time
            &&& c1.total_days == c.total_days
        },
{
}

/// The stake leaves the vault at a check-in exactly when the check-in ends
/// the challenge: back to the user when it completes the last day, to the
/// treasury when it misses the window; on-time check-ins before the last day
/// move nothing.
pub proof fn lemma_stake_moves_only_at_the_end(c: ChallengeAccount, now: u64)
    requires
        challenge_wf(c),
        check_in(c, now) is Ok,
    ensures
        check_in(c, now) matches Ok(c1) && {
            &&& check_in_transfer(c, now) is Some <==> !c1.is_active
            &&& check_in_transfer(c, now) matches Some(t) ==> {
                &&& t.amount == c.stake_amount
                &&& t.from == TokenAccountRole::Vault
                &&& t.to == (if in_wakeup_window(c, now) {
                    TokenAccountRole::UserTokenAccount
                } else {
                    TokenAccountRole::TreasuryAta
                })
            }
        },
{
}

/// A challenge is checked in at most once per day: after an accepted
/// check-in at `t1`, a check-in at any `t2` of the same day is refused.
pub proof fn lemma_one_check_in_per_day(c: ChallengeAccount, t1: u64, t2: u64)
    requires
        check_in_defined(c, t1),
        check_in(c, t1) is Ok,
        challenge_day(c, t2) == challenge_day(c, t1),
    ensures
        check_in(c, t1) matches Ok(c1) && check_in(c1, t2) is Err,
{
}

/// The record of a check-in of a consistent challenge says that it failed
/// exactly when the check-in missed the window, and that the stake was
/// returned exactly when an on-time check-in ended the challenge.
pub proof fn lemma_check_in_event_matches_outcome(s: CheckStatus, c: ChallengeAccount, now: u64)
    requires
        challenge_wf(c),
        check_in(c, now) is Ok,
    ensures
        check_in(c, now) matches Ok(c1) && {
            let ev = check_status_event(s, c1, in_wakeup_window(c, now));
            &&& ev.was_failed == !in_wakeup_window(c, now)
            &&& ev.tokens_returned == (in_wakeup_window(c, now) && !c1.is_active)
        },
{
}

/// The first check-in of a newly started challenge is admitted at any time
/// from the start on: on time it counts the first day, and otherwise it
/// slashes the stake.
pub proof fn lemma_first_check_in_admitted(
    s: StartChallenge,
    wakeup_time: u64,
    stake_amount: u64,
    total_days: u64,
    bump: u8,
    now: u64,
)
    requires
        start_refusal(wakeup_time, stake_amount, total_days, s.clock.now_spec()) is None,
        s.clock.now_spec() <= now,
    ensures
        ({
            let c = new_challenge(s, wakeup_time, stake_amount, total_days, bump);
            &&& check_in_defined(c, now)
            &&& check_in(c, now) matches Ok(c1) && (in_wakeup_window(c, now) ==> c1.completed_days == 1
                && c1.last_check_time == now)
        }),
{
}

/// The state of a challenge after check-ins at the given times, one after
/// another, or the first refusal.
pub open spec fn after_check_ins(c: ChallengeAccount, times: Seq<u64>) -> Result<
    ChallengeAccount,
    Stake2WakeError,
>
    decreases times.len(),
{
    if times.len() == 0 {
        Ok(c)
    } else {
        match after_check_ins(c, times.drop_last()) {
            Ok(c1) => check_in(c1, times.last()),
            Err(e) => Err(e),
        }
    }
}

/// The times are on-time check-ins on successive distinct days of the
/// challenge: each lies from the start on, falls in the wake-up window, and
/// falls on a later day than the one before.
pub open spec fn daily_on_time(c: ChallengeAccount, times: Seq<u64>) -> bool {
    &&& forall|i: int|
        0 <= i < times.len() ==> c.start_time <= #[trigger] times[i] && in_wakeup_window(
            c,
            times[i],
        )
    &&& forall|i: int|
        0 <= i < times.len() - 1 ==> challenge_day(c, #[trigger] times[i]) < challenge_day(
            c,
            times[i + 1],
        )
}

/// The state of a fresh challenge after on-time check-ins on `k` days.
pub open spec fn after_days(c: ChallengeAccount, times: Seq<u64>, k: int) -> ChallengeAccount {
    ChallengeAccount {
        completed_days: k as u64,
        last_check_time: if k == 0 { c.last_check_time } else { times[k - 1] },
        is_active: k < c.total_days,
        ..c
    }
}

/// The check-ins of a fresh challenge at the first `k` of the given on-time
/// daily times are all accepted and count `k` days.
proof fn lemma_daily_prefix(c: ChallengeAccount, times: Seq<u64>, k: int)
    requires
        c.is_active,
        c.completed_days == 0,
        daily_on_time(c, times),
        times.len() == c.total_days,
        c.total_days > 0,
        0 <= k <= times.len(),
    ensures
        after_check_ins(c, times.take(k)) == Ok::<ChallengeAccount, Stake2WakeError>(
            after_days(c, times, k),
        ),
    decreases k,
{
    if k > 0 {
        lemma_daily_prefix(c, times, k - 1);
        let prefix = times.take(k);
        assert(prefix.drop_last() =~= times.take(k - 1));
        assert(prefix.last() == times[k - 1]);
        lemma_daily_step(c, times, k - 1);
    } else {
        assert(times.take(0).len() == 0);
    }
}

/// One on-time check-in on the next day advances a fresh challenge from `k`
/// counted days to `k + 1`.
proof fn lemma_daily_step(c: ChallengeAccount, times: Seq<u64>, k: int)
    requires
        c.is_active,
        c.completed_days == 0,
        daily_on_time(c, times),
        times.len() == c.total_days,
        c.total_days > 0,
        0 <= k < times.len(),
    ensures
        check_in_defined(after_days(c, times, k), times[k]),
        check_in(after_days(c, times, k), times[k]) == Ok::<ChallengeAccount, Stake2WakeError>(
            after_days(c, times, k + 1),
        ),
{
    let ck = after_days(c, times, k);
    let t = times[k];
    assert(c.start_time <= t && in_wakeup_window(c, t));
    assert(in_wakeup_window(ck, t));
    if k > 0 {
        let tp = times[k - 1];
        assert(c.start_time <= tp);
        assert(challenge_day(c, times[k - 1]) < challenge_day(c, times[(k - 1) + 1]));
        assert(!checked_in_today(ck, t));
    } else {
        assert(never_checked_in(ck));
    }
    assert(check_in(ck, t) =~= Ok::<ChallengeAccount, Stake2WakeError>(after_days(c, times, k + 1)));
}

/// Checking in on time on each day of a fresh challenge completes it: every
/// check-in is admitted, the challenge ends with all days counted, the stake
/// stays in the vault until the last check-in, and that one sends it back to
/// the user.
pub proof fn lemma_daily_check_ins_return_stake(c: ChallengeAccount, times: Seq<u64>)
    requires
        c.is_active,
        c.completed_days == 0,
        daily_on_time(c, times),
        times.len() == c.total_days,
        c.total_days > 0,
    ensures
        forall|j: int| 0 <= j < times.len() ==> check_in_defined(#[trigger] after_check_ins(c, times.take(j))->Ok_0, times[j]),
        after_check_ins(c, times) matches Ok(cn) && cn.completed_days == c.total_days && !cn.is_active,
        forall|j: int|
            0 <= j < times.len() - 1 ==> check_in_transfer(
                #[trigger] after_check_ins(c, times.take(j))->Ok_0,
                times[j],
            ) is None,
        check_in_transfer(
            after_check_ins(c, times.take(times.len() - 1))->Ok_0,
            times.last(),
        ) == Some(
            TokenTransfer {
                from: TokenAccountRole::Vault,
                to: TokenAccountRole::UserTokenAccount,
                authority: TransferAuthority::UserChallenge,
                amount: c.stake_amount,
                decimals: BONK_DECIMALS,
            },
        ),
{
    lemma_daily_prefix(c, times, times.len() as int);
    assert(times.take(times.len() as int) =~= times);
    assert forall|j: int| 0 <= j < times.len() implies check_in_defined(
        #[trigger] after_check_ins(c, times.take(j))->Ok_0,
        times[j],
    ) by {
        lemma_daily_prefix(c, times, j);
        lemma_daily_step(c, times, j);
    }
    assert forall|j: int| 0 <= j < times.len() - 1 implies check_in_transfer(
        #[trigger] after_check_ins(c, times.take(j))->Ok_0,
        times[j],
    ) is None by {
        lemma_daily_prefix(c, times, j);
        lemma_daily_step(c, times, j);
    }
    if times.len() > 0 {
        lemma_daily_prefix(c, times, times.len() - 1);
        lemma_daily_step(c, times, times.len() - 1);
    }
}

/// An ended challenge is never checked in again.
pub proof fn lemma_ended_challenge_refuses_check_in(c: ChallengeAccount, now: u64)
    requires
        !c.is_active,
    ensures
        check_in(c, now) == Err::<ChallengeAccount, Stake2WakeError>(Stake2WakeError::InactiveChallenge),
{
}

/// A cancellation splits the stake between the treasury and the user: the
/// penalty and the refund add up to the stake, and the penalty is at most a
/// fifth of it.
pub proof fn lemma_cancel_splits_stake(c: ChallengeAccount, now: u64)
    ensures
        cancel_penalty(c, now) + cancel_refund(c, now) == c.stake_amount,
        0 <= cancel_penalty(c, now) <= c.stake_amount / 5,
        0 <= cancel_refund(c, now),
{
    lemma_cancel_penalty_bounds(c, now);
}

/// The elapsed share of a challenge never shrinks as time goes on.
proof fn lemma_progress_non_decreasing(c: ChallengeAccount, t1: u64, t2: u64)
    requires
        t1 <= t2,
    ensures
        cancel_progress(c, t1) <= cancel_progress(c, t2),
{
    let d = minus_or_zero(c.end_time, c.start_time);
    let e1 = minus_or_zero(t1, c.start_time);
    let e2 = minus_or_zero(t2, c.start_time);
    assert(e1 <= e2);
    if d > 0 {
        lemma_div_is_ordered(e1 * 100, e2 * 100, d);
    }
}

/// The penalty percentage never grows with progress.
proof fn lemma_penalty_percentage_non_increasing(p1: int, p2: int)
    requires
        p1 <= p2,
    ensures
        penalty_percentage(p2) <= penalty_percentage(p1),
{
    lemma_penalty_percentage_bounds(p1);
    lemma_penalty_percentage_bounds(p2);
    if 25 < p1 && p2 < 75 {
        lemma_mul_inequality(p1 - 25, p2 - 25, 15);
        lemma_div_is_ordered((p1 - 25) * 15, (p2 - 25) * 15, 50);
    }
}

/// Cancelling later never costs more: the penalty of a cancellation at `t2`
/// is at most that of one at an earlier `t1`.
pub proof fn lemma_later_cancellation_costs_no_more(c: ChallengeAccount, t1: u64, t2: u64)
    requires
        t1 <= t2,
    ensures
        cancel_penalty(c, t2) <= cancel_penalty(c, t1),
        cancel_refund(c, t1) <= cancel_refund(c, t2),
{
    let p1 = cancel_progress(c, t1);
    let p2 = cancel_progress(c, t2);
    lemma_progress_non_decreasing(c, t1, t2);
    lemma_penalty_percentage_non_increasing(p1, p2);
    let pp1 = penalty_percentage(p1);
    let pp2 = penalty_percentage(p2);
    lemma_mul_inequality(pp2, pp1, c.stake_amount as int);
    assert(c.stake_amount * pp2 <= c.stake_amount * pp1) by (nonlinear_arith)
        requires
            pp2 * c.stake_amount <= pp1 * c.stake_amount,
    ;
    lemma_div_is_ordered(c.stake_amount * pp2, c.stake_amount * pp1, 100);
}

/// The penalty of a cancellation that comes before a quarter of the
/// challenge's duration has passed is a fifth of the stake, rounded down, and
/// one from three quarters on is a twentieth.
pub proof fn lemma_penalty_at_ends(c: ChallengeAccount, now: u64)
    ensures
        cancel_progress(c, now) <= 25 ==> cancel_penalty(c, now) == (c.stake_amount * 20) / 100,
        cancel_progress(c, now) >= 75 ==> cancel_penalty(c, now) == (c.stake_amount * 5) / 100,
{
}

/// What a cancellation adds to the treasury can be paid out again: the
/// treasury's total afterwards is at least the penalty, and where the total
/// did not reach the largest 64-bit value, paying out the penalty restores the
/// total from before.
pub proof fn lemma_collected_penalty_is_withdrawable(t: Treasury, c: ChallengeAccount, now: u64)
    ensures
        collected_after_cancel(t, c, now) >= cancel_penalty(c, now),
        t.total_collected + cancel_penalty(c, now) <= u64::MAX ==> collected_after_cancel(t, c, now)
            - cancel_penalty(c, now) == t.total_collected,
{
    lemma_cancel_penalty_bounds(c, now);
}

/// The net amount that a list of transfers moves into the treasury's token
/// account: what goes in less what comes out.
pub open spec fn treasury_inflow(transfers: Seq<TokenTransfer>) -> int
    decreases transfers.len(),
{
    if transfers.len() == 0 {
        0
    } else {
        let t = transfers.last();
        treasury_inflow(transfers.drop_last()) + (if t.to == TokenAccountRole::TreasuryAta {
            t.amount as int
        } else {
            0
        }) - (if t.from == TokenAccountRole::TreasuryAta {
            t.amount as int
        } else {
            0
        })
    }
}

/// The transfers of an optional transfer, as a list.
pub open spec fn transfers_of(t: Option<TokenTransfer>) -> Seq<TokenTransfer> {
    match t {
        Some(t) => seq![t],
        None => seq![],
    }
}

/// A cancellation moves exactly the penalty into the treasury's account, and
/// the treasury's recorded total grows by the penalty (held at the largest
/// 64-bit value), so by no more than what came in.
pub proof fn lemma_cancel_total_backed(t: Treasury, c: ChallengeAccount, now: u64)
    ensures
        treasury_inflow(cancel_transfers(c, now)) == cancel_penalty(c, now),
        collected_after_cancel(t, c, now) == if t.total_collected + cancel_penalty(c, now) > u64::MAX {
            u64::MAX as int
        } else {
            t.total_collected + cancel_penalty(c, now)
        },
        collected_after_cancel(t, c, now) - t.total_collected <= treasury_inflow(cancel_transfers(c, now)),
{
    reveal_with_fuel(treasury_inflow, 3);
    lemma_cancel_penalty_bounds(c, now);
    let s = cancel_transfers(c, now);
    if cancel_refund(c, now) > 0 {
        assert(s.drop_last() =~= (if cancel_penalty(c, now) > 0 {
            seq![s[0]]
        } else {
            Seq::<TokenTransfer>::empty()
        }));
    }
    if cancel_penalty(c, now) > 0 {
        assert(seq![s[0]].drop_last() =~= Seq::<TokenTransfer>::empty());
    }
}

/// The treasury's recorded total grows by no more than the tokens that a
/// check-in moves into the treasury's account.
pub proof fn lemma_check_in_total_backed(t: Treasury, c: ChallengeAccount, now: u64)
    ensures
        treasury_after_check_in(t, c, now).total_collected - t.total_collected <= treasury_inflow(
            transfers_of(check_in_transfer(c, now)),
        ),
{
    reveal_with_fuel(treasury_inflow, 2);
    let s = transfers_of(check_in_transfer(c, now));
    if s.len() == 1 {
        assert(s.drop_last() =~= Seq::<TokenTransfer>::empty());
    }
}

/// An accepted withdrawal lowers the treasury's recorded total by exactly the
/// tokens that it moves out of the treasury's account. Together with the two
/// laws above: a treasury whose total starts at 0 never records more than its
/// token account has received net.
pub proof fn lemma_withdraw_total_backed(w: Withdraw, amount: u64)
    requires
        amount <= w.treasury.data.total_collected,
    ensures
        after_withdraw(w, amount).treasury.data.total_collected - w.treasury.data.total_collected
            == treasury_inflow(seq![withdraw_transfer(w, amount)]),
{
    reveal_with_fuel(treasury_inflow, 2);
    assert(seq![withdraw_transfer(w, amount)].drop_last() =~= Seq::<TokenTransfer>::empty());
}

/// The quotient of a natural `x` by `d` is the `q` with `q * d <= x < (q + 1) * d`.
proof fn lemma_div_by_bounds(x: int, d: int, q: int)
    requires
        d > 0,
        0 <= x,
        q * d <= x < (q + 1) * d,
    ensures
        x / d == q,
{
    lemma_fundamental_div_mod(x, d);
    lemma_mod_pos_bound(x, d);
    let r = x / d;
    assert(r == q) by (nonlinear_arith)
        requires
            d > 0,
            q * d <= x < (q + 1) * d,
            x == d * r + (x % d),
            0 <= x % d < d,
    ;
}

/// Whether a check-in counts depends on the time of day alone: for an
/// active challenge that is not yet checked in that day, a check-in whose
/// time of day (seconds since midnight) lies from the wake-up time of day to
/// 900 seconds after it (running on past midnight) counts the day, records
/// its time, keeps the stake in the vault until the last day and leaves the
/// treasury alone; any other check-in ends the challenge with its count
/// unchanged and slashes the whole stake to the treasury.
pub proof fn lemma_check_in_verdict_by_time_of_day(c: ChallengeAccount, t: Treasury, now: u64)
    requires
        c.is_active,
        c.completed_days < u64::MAX,
        c.completed_days == 0 || (c.start_time <= c.last_check_time && (now - c.start_time) / 86400
            > (c.last_check_time - c.start_time) / 86400),
    ensures
        ({
            let tod = now % 86400;
            let w = c.wakeup_time % 86400;
            let on_time = (w <= tod && tod <= w + 900) || tod + 86400 <= w + 900;
            &&& on_time ==> {
                &&& check_in(c, now) == Ok::<ChallengeAccount, Stake2WakeError>(
                    ChallengeAccount {
                        completed_days: (c.completed_days + 1) as u64,
                        last_check_time: now,
                        is_active: c.completed_days + 1 < c.total_days,
                        ..c
                    },
                )
                &&& treasury_after_check_in(t, c, now) == t
                &&& check_in_transfer(c, now) == if c.completed_days + 1 >= c.total_days {
                    Some(
                        TokenTransfer {
                            from: TokenAccountRole::Vault,
                            to: TokenAccountRole::UserTokenAccount,
                            authority: TransferAuthority::UserChallenge,
                            amount: c.stake_amount,
                            decimals: BONK_DECIMALS,
                        },
                    )
                } else {
                    None
                }
            }
            &&& !on_time ==> {
                &&& check_in(c, now) == Ok::<ChallengeAccount, Stake2WakeError>(
                    ChallengeAccount { is_active: false, ..c },
                )
                &&& treasury_after_check_in(t, c, now).total_collected == if t.total_collected
                    + c.stake_amount > u64::MAX {
                    u64::MAX as int
                } else {
                    t.total_collected + c.stake_amount
                }
                &&& check_in_transfer(c, now) == Some(
                    TokenTransfer {
                        from: TokenAccountRole::Vault,
                        to: TokenAccountRole::TreasuryAta,
                        authority: TransferAuthority::UserChallenge,
                        amount: c.stake_amount,
                        decimals: BONK_DECIMALS,
                    },
                )
            }
        }),
{
    let tod = now % 86400;
    let w = c.wakeup_time % 86400;
    let x = tod - w + 86400;
    assert(0 <= tod < 86400 && 0 <= w < 86400);
    if tod >= w {
        lemma_div_by_bounds(x, 86400, 1);
        lemma_fundamental_div_mod(x, 86400);
        assert(x % 86400 == tod - w);
    } else {
        lemma_div_by_bounds(x, 86400, 0);
        lemma_fundamental_div_mod(x, 86400);
        assert(x % 86400 == x);
    }
    assert(!checked_in_today(c, now));
}

/// The verdict of a first check-in does not depend on when the challenge
/// started: two challenges that differ only in their start time count a
/// first check-in at the same clock time alike.
pub proof fn lemma_check_in_verdict_ignores_start(c: ChallengeAccount, start_time: u64, now: u64)
    requires
        c.is_active,
        c.completed_days == 0,
    ensures
        ({
            let c2 = ChallengeAccount { start_time, ..c };
            &&& check_in(c, now) is Ok && check_in(c2, now) is Ok
            &&& (check_in(c, now)->Ok_0.completed_days == 1) == (check_in(c2, now)->Ok_0.completed_days
                == 1)
            &&& check_in_transfer(c, now) == check_in_transfer(c2, now)
        }),
{
}

/// The penalty of a cancellation depends on the elapsed share of the
/// challenge's own duration: shifting the start, the end and the clock by the
/// same amount leaves it unchanged.
pub proof fn lemma_cancel_penalty_ignores_shift(c: ChallengeAccount, now: u64, k: u64)
    requires
        c.start_time + k <= u64::MAX,
        c.end_time + k <= u64::MAX,
        now + k <= u64::MAX,
    ensures
        cancel_penalty(
            ChallengeAccount {
                start_time: (c.start_time + k) as u64,
                end_time: (c.end_time + k) as u64,
                ..c
            },
            (now + k) as u64,
        ) == cancel_penalty(c, now),
{
}

/// A cancellation once three quarters of the challenge's duration have
/// passed costs 5% of the stake, and one before 26% of it has passed costs
/// 20%, both rounded down.
pub proof fn lemma_cancel_penalty_by_elapsed_share(c: ChallengeAccount, now: u64)
    requires
        c.start_time < c.end_time,
        c.start_time <= now,
    ensures
        (now - c.start_time) * 100 >= 75 * (c.end_time - c.start_time) ==> cancel_penalty(c, now) == (
        c.stake_amount * 5) / 100,
        (now - c.start_time) * 100 < 26 * (c.end_time - c.start_time) ==> cancel_penalty(c, now) == (
        c.stake_amount * 20) / 100,
{
    let d = c.end_time - c.start_time;
    let x = (now - c.start_time) * 100;
    let p = x / d;
    lemma_fundamental_div_mod(x, d);
    lemma_mod_pos_bound(x, d);
    assert(x == d * p + x % d);
    if x >= 75 * d {
        assert(p >= 75) by (nonlinear_arith)
            requires
                d > 0,
                x >= 75 * d,
                x == d * p + x % d,
                x % d < d,
        ;
    }
    if x < 26 * d {
        assert(p <= 25) by (nonlinear_arith)
            requires
                d > 0,
                x < 26 * d,
                x == d * p + x % d,
                x % d >= 0,
        ;
    }
}

/// Between a quarter and three quarters of the way, the penalty falls by 3
/// percentage points for every 10 points of progress, from 20%: where the
/// elapsed share of the duration lies in [`p`, `p + 1`) percent and
/// `10 * (20 - q) <= 3 * (p - 25) < 10 * (21 - q)`, the penalty is `q`% of
/// the stake, rounded down (at 60% progress, for example, it is 10%).
pub proof fn lemma_cancel_penalty_between(c: ChallengeAccount, now: u64, p: int, q: int)
    requires
        c.start_time < c.end_time,
        c.start_time <= now,
        p * (c.end_time - c.start_time) <= (now - c.start_time) * 100 < (p + 1) * (c.end_time
            - c.start_time),
        25 < p < 75,
        10 * (20 - q) <= 3 * (p - 25) < 10 * (21 - q),
    ensures
        cancel_penalty(c, now) == (c.stake_amount * q) / 100,
{
    let d = c.end_time - c.start_time;
    let x = (now - c.start_time) * 100;
    lemma_div_by_bounds(x, d, p);
    assert(cancel_progress(c, now) == p);
    let y = (p - 25) * 15;
    assert((20 - q) * 50 <= y < (20 - q + 1) * 50) by (nonlinear_arith)
        requires
            10 * (20 - q) <= 3 * (p - 25) < 10 * (21 - q),
            y == (p - 25) * 15,
    ;
    lemma_div_by_bounds(y, 50, 20 - q);
    assert(penalty_percentage(p) == q);
}

/// A second check-in on a day that already has a counted check-in is
/// refused, and one on an ended challenge too.
pub proof fn lemma_check_in_refusals(c: ChallengeAccount, now: u64)
    ensures
        !c.is_active ==> check_in(c, now) == Err::<ChallengeAccount, Stake2WakeError>(
            Stake2WakeError::InactiveChallenge,
        ),
        c.is_active && c.completed_days > 0 && (now - c.start_time) / 86400 <= (c.last_check_time
            - c.start_time) / 86400 ==> check_in(c, now) == Err::<ChallengeAccount, Stake2WakeError>(
            Stake2WakeError::AlreadyCheckedInToday,
        ),
{
}

/// A cancellation before the challenge's start, or of a challenge without
/// duration, costs 20% of the stake, rounded down.
pub proof fn lemma_cancel_penalty_without_elapsed_share(c: ChallengeAccount, now: u64)
    requires
        c.end_time <= c.start_time || now <= c.start_time,
    ensures
        cancel_penalty(c, now) == (c.stake_amount * 20) / 100,
{
    if c.end_time > c.start_time {
        assert(minus_or_zero(now, c.start_time) == 0);
        assert(cancel_progress(c, now) == 0);
    }
}

/// A start is accepted exactly when the stake and the number of days are
/// positive and the wake-up time lies after the clock, and is refused for the
/// first of these that fails, in that order. An accepted start records an
/// active challenge of the signer, with the given wake-up time, stake and
/// number of days, no day counted and no check-in, starting at the clock's
/// time and lasting that many days; it moves exactly the stake from the
/// user's account to the vault.
pub proof fn lemma_start_records_challenge(
    s: StartChallenge,
    wakeup_time: u64,
    stake_amount: u64,
    total_days: u64,
    bump: u8,
)
    requires
        start_defined(wakeup_time, stake_amount, total_days, s.clock.now_spec()),
    ensures
        ({
            let now = s.clock.unix_timestamp as u64;
            &&& stake_amount == 0 ==> start_refusal(wakeup_time, stake_amount, total_days, now)
                == Some(Stake2WakeError::InvalidStakeAmount)
            &&& stake_amount > 0 && total_days == 0 ==> start_refusal(
                wakeup_time,
                stake_amount,
                total_days,
                now,
            ) == Some(Stake2WakeError::InvalidTotalDays)
            &&& stake_amount > 0 && total_days > 0 && wakeup_time <= now ==> start_refusal(
                wakeup_time,
                stake_amount,
                total_days,
                now,
            ) == Some(Stake2WakeError::InvalidWakeupTime)
            &&& stake_amount > 0 && total_days > 0 && wakeup_time > now ==> {
                let c = new_challenge(s, wakeup_time, stake_amount, total_days, bump);
                &&& start_refusal(wakeup_time, stake_amount, total_days, now) is None
                &&& c.user == s.user && c.mint == s.bonk_mint && c.vault == s.vault
                &&& c.wakeup_time == wakeup_time && c.stake_amount == stake_amount
                &&& c.total_days == total_days && c.bump == bump
                &&& c.is_active && c.completed_days == 0 && c.last_check_time == 0
                &&& c.start_time == now
                &&& c.end_time - c.start_time == total_days * 86400
                &&& stake_transfer(stake_amount).amount == stake_amount
                &&& stake_transfer(stake_amount).from == TokenAccountRole::UserTokenAccount
                &&& stake_transfer(stake_amount).to == TokenAccountRole::Vault
            }
        }),
{
}

/// A withdrawal is accepted exactly when the signer is the treasury
/// authority and the amount is at most the treasury's total; a stranger is
/// refused as unauthorized before the amount is looked at. An accepted
/// withdrawal moves exactly the amount from the treasury's account to the
/// authority's, with the mint's decimals, and lowers the total by it.
pub proof fn lemma_withdraw_accounting(w: Withdraw, admin: Seq<u8>, amount: u64)
    ensures
        w.authority@ != admin ==> withdraw_refusal(w, admin, amount) == Some(
            Stake2WakeError::Unauthorized,
        ),
        w.authority@ == admin && amount > w.treasury.data.total_collected ==> withdraw_refusal(
            w,
            admin,
            amount,
        ) == Some(Stake2WakeError::InsufficientFunds),
        w.authority@ == admin && amount <= w.treasury.data.total_collected ==> {
            &&& withdraw_refusal(w, admin, amount) is None
            &&& after_withdraw(w, amount).treasury.data.total_collected + amount
                == w.treasury.data.total_collected
            &&& withdraw_transfer(w, amount).amount == amount
            &&& withdraw_transfer(w, amount).from == TokenAccountRole::TreasuryAta
            &&& withdraw_transfer(w, amount).to == TokenAccountRole::AuthorityAta
            &&& withdraw_transfer(w, amount).decimals == w.bonk_mint.data.decimals
            &&& after_withdraw(w, amount).authority == w.authority
            &&& after_withdraw(w, amount).treasury.key == w.treasury.key
        },
{
}

} // verus!
