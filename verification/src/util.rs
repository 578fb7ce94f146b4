//! The reward accrual engine: the time-weighted earned-reward formula and the
//! routine that folds it into a user record.
//!
//! Every mutating operation runs the accrual first, so that reward earned
//! under the old stake size is settled before the stake size changes.

use vstd::arithmetic::div_mod::lemma_div_is_ordered;
use vstd::arithmetic::mul::lemma_mul_upper_bound;
use vstd::prelude::*;

use crate::state::{ErrorCode, User, Vault, CALC_PRECISION};

verus! {

/// The whole-unit reward one staked slot earns per time unit under `rate`,
/// with the fixed-point fraction truncated away.
pub open spec fn reward_per_slot(rate: u128) -> int {
    rate as int / CALC_PRECISION as int
}

/// The mathematical value of the accrual formula: reward per slot, times
/// stake size, times elapsed time, on top of what was already pending.
pub open spec fn earned_amount(
    elapsed_time: u64,
    balance_staked: u32,
    reward_rate_per_token: u128,
    user_reward_per_token_pending: u64,
) -> int {
    reward_per_slot(reward_rate_per_token) * (balance_staked as int) * (elapsed_time as int)
        + user_reward_per_token_pending as int
}

/// Time elapsed since `last`, clamped to zero if the injected clock ever
/// regresses.
pub open spec fn elapsed_since(last: u64, now: u64) -> u64 {
    if now >= last {
        (now - last) as u64
    } else {
        0
    }
}

/// The accrual of `user` at `now` stays within `u64`, so an accrual pass
/// succeeds.
pub open spec fn accrue_ok(user: User, rate: u128, now: u64) -> bool {
    accrued_pending(user, rate, now) <= u64::MAX
}

/// The pending reward `user` holds once accrual has run at `now`.
pub open spec fn accrued_pending(user: User, rate: u128, now: u64) -> int {
    earned_amount(
        elapsed_since(user.last_stake_time, now),
        user.mint_staked_count,
        rate,
        user.reward_earned_pending,
    )
}

/// How a user record looks after one accrual pass at `now`: the pending
/// reward is brought up to date, the accrual timestamp moves to `now`, and
/// every other field stands still.
pub open spec fn accrue_post(u0: User, u1: User, rate: u128, now: u64) -> bool {
    &&& u1.reward_earned_pending == accrued_pending(u0, rate, now)
    &&& u1.last_stake_time == now
    &&& u1.vault == u0.vault
    &&& u1.key == u0.key
    &&& u1.reward_earned_claimed == u0.reward_earned_claimed
    &&& u1.mint_staked_count == u0.mint_staked_count
    &&& u1.mint_accounts@ == u0.mint_accounts@
}

/// Evaluates the accrual formula in 128-bit width. Succeeds exactly when the
/// mathematical result fits the 64-bit counter; every overflow along the way
/// surfaces as an arithmetic error instead of a partial result.
pub fn earned(
    elapsed_time: u64,
    balance_staked: u32,
    reward_rate_per_token: u128,
    user_reward_per_token_pending: u64,
) -> (r: Result<u64, ErrorCode>)
    ensures
        r is Ok <==> earned_amount(
            elapsed_time,
            balance_staked,
            reward_rate_per_token,
            user_reward_per_token_pending,
        ) <= u64::MAX,
        r is Ok ==> r->Ok_0 == earned_amount(
            elapsed_time,
            balance_staked,
            reward_rate_per_token,
            user_reward_per_token_pending,
        ),
        r is Err ==> r == Err::<u64, ErrorCode>(ErrorCode::ArithmeticOverflow),
{
    let per_slot: u128 = reward_rate_per_token / CALC_PRECISION;
    proof {
        lemma_div_is_ordered(
            reward_rate_per_token as int,
            u128::MAX as int,
            CALC_PRECISION as int,
        );
        assert(per_slot <= u64::MAX);
        lemma_mul_upper_bound(
            per_slot as int,
            u64::MAX as int,
            balance_staked as int,
            u32::MAX as int,
        );
    }
    let with_stake: u128 = per_slot * (balance_staked as u128);
    let with_time: u128 = match with_stake.checked_mul(elapsed_time as u128) {
        Some(v) => v,
        None => {
            return Err(ErrorCode::ArithmeticOverflow);
        },
    };
    let total: u128 = match with_time.checked_add(user_reward_per_token_pending as u128) {
        Some(v) => v,
        None => {
            return Err(ErrorCode::ArithmeticOverflow);
        },
    };
    if total > u64::MAX as u128 {
        return Err(ErrorCode::ArithmeticOverflow);
    }
    Ok(total as u64)
}

/// Brings `user.reward_earned_pending` up to `now` under the vault's current
/// rate and stamps the accrual time, or leaves the record untouched and
/// reports the overflow.
pub fn update_rewards(vault: &Vault, user: &mut User, now: u64) -> (r: Result<(), ErrorCode>)
    ensures
        r is Ok <==> accrue_ok(*old(user), vault.reward_rate, now),
        r is Ok ==> accrue_post(*old(user), *final(user), vault.reward_rate, now),
        r is Err ==> *final(user) == *old(user) && r == Err::<(), ErrorCode>(
            ErrorCode::ArithmeticOverflow,
        ),
{
    let time_diff = if now >= user.last_stake_time {
        now - user.last_stake_time
    } else {
        0
    };
    match earned(time_diff, user.mint_staked_count, vault.reward_rate, user.reward_earned_pending) {
        Ok(updated) => {
            user.reward_earned_pending = updated;
            user.last_stake_time = now;
            Ok(())
        },
        Err(code) => Err(code),
    }
}

} // verus!
