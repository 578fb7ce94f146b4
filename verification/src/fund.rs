//! The funding protocol: recomputing the pool's reward rate when new reward
//! liquidity arrives.
//!
//! An expired period is restarted from scratch; topping up an active period
//! folds the value still owed under the old rate into the new one, so that
//! already-promised reward is preserved. Deliberately, only the expired
//! branch moves the deadline: a mid-period top-up raises the rate but does
//! not lengthen the distribution window. Whether that asymmetry is a feature
//! is an open question of the protocol; it is preserved here exactly.

use vstd::arithmetic::mul::lemma_mul_inequality;
use vstd::prelude::*;

use crate::state::{ErrorCode, Vault, VaultStatus, CALC_PRECISION};

verus! {

/// The rate a fresh period uses to stream `amount` over `duration` across
/// `count` slots, scaled by [`CALC_PRECISION`].
pub open spec fn new_period_rate(amount: u64, duration: u64, count: u32) -> int {
    amount as int * CALC_PRECISION as int / duration as int / count as int
}

/// The P-scaled value still owed under `rate` for the `remaining` time units
/// of the current period, across `count` slots.
pub open spec fn carried_value(rate: u128, remaining: u64, count: u32) -> int {
    rate as int * remaining as int * count as int
}

/// The rate after topping up an active period: new liquidity plus the carried
/// value, streamed over a full `duration` across `count` slots.
pub open spec fn topped_up_rate(
    amount: u64,
    rate: u128,
    remaining: u64,
    duration: u64,
    count: u32,
) -> int {
    (amount as int * CALC_PRECISION as int + carried_value(rate, remaining, count))
        / duration as int / count as int
}

/// Outcome of `fund`, decided by the first violated condition.
pub open spec fn fund_check(vault: Vault, funder: u64, amount: u64, now: u64) -> Result<
    (),
    ErrorCode,
> {
    if vault.status != VaultStatus::Initialized {
        Err(ErrorCode::VaultNotReady)
    } else if !vault.may_fund(funder) {
        Err(ErrorCode::NotAuthorized)
    } else if vault.stake_token_count == 0 {
        Err(ErrorCode::ArithmeticOverflow)
    } else if now >= vault.reward_duration_deadline {
        if now + vault.reward_duration > u64::MAX {
            Err(ErrorCode::ArithmeticOverflow)
        } else {
            Ok(())
        }
    } else {
        if amount as int * CALC_PRECISION as int + carried_value(
            vault.reward_rate,
            (vault.reward_duration_deadline - now) as u64,
            vault.stake_token_count,
        ) > u128::MAX {
            Err(ErrorCode::ArithmeticOverflow)
        } else {
            Ok(())
        }
    }
}

/// All vault fields but the reward rate and the period deadline stand still.
pub open spec fn rate_only_changed(v0: Vault, v1: Vault) -> bool {
    &&& v1.authority == v0.authority
    &&& v1.status == v0.status
    &&& v1.reward_mint == v0.reward_mint
    &&& v1.reward_mint_account == v0.reward_mint_account
    &&& v1.reward_duration == v0.reward_duration
    &&& v1.stake_token_count == v0.stake_token_count
    &&& v1.staked_count == v0.staked_count
    &&& v1.user_count == v0.user_count
    &&& v1.funders@ == v0.funders@
}

/// Recomputes the reward rate for `amount` of fresh liquidity handed in by
/// `funder` at time `now`. The caller moves the liquidity itself once this
/// succeeds; a failure leaves the vault unchanged.
pub fn fund(vault: &mut Vault, funder: u64, amount: u64, now: u64) -> (r: Result<(), ErrorCode>)
    requires
        old(vault).wf(),
    ensures
        final(vault).wf(),
        r == fund_check(*old(vault), funder, amount, now),
        r is Err ==> *final(vault) == *old(vault),
        r is Ok ==> rate_only_changed(*old(vault), *final(vault)),
        r is Ok && now >= old(vault).reward_duration_deadline ==> final(vault).reward_rate
            == new_period_rate(amount, old(vault).reward_duration, old(vault).stake_token_count)
            && final(vault).reward_duration_deadline == now + old(vault).reward_duration,
        r is Ok && now < old(vault).reward_duration_deadline ==> final(vault).reward_rate
            == topped_up_rate(
            amount,
            old(vault).reward_rate,
            (old(vault).reward_duration_deadline - now) as u64,
            old(vault).reward_duration,
            old(vault).stake_token_count,
        ) && final(vault).reward_duration_deadline == old(vault).reward_duration_deadline,
{
    if vault.status != VaultStatus::Initialized {
        return Err(ErrorCode::VaultNotReady);
    }
    if !(funder == vault.authority || vault.funders.contains(funder)) {
        return Err(ErrorCode::NotAuthorized);
    }
    if vault.stake_token_count == 0 {
        return Err(ErrorCode::ArithmeticOverflow);
    }
    let duration = vault.reward_duration as u128;
    let count = vault.stake_token_count as u128;
    proof {
        lemma_mul_inequality(amount as int, u64::MAX as int, CALC_PRECISION as int);
    }
    let scaled: u128 = (amount as u128) * CALC_PRECISION;
    if now >= vault.reward_duration_deadline {
        let new_deadline = match now.checked_add(vault.reward_duration) {
            Some(d) => d,
            None => {
                return Err(ErrorCode::ArithmeticOverflow);
            },
        };
        vault.reward_rate = scaled / duration / count;
        vault.reward_duration_deadline = new_deadline;
        Ok(())
    } else {
        let remaining = vault.reward_duration_deadline - now;
        let owed_per_slot = match vault.reward_rate.checked_mul(remaining as u128) {
            Some(v) => v,
            None => {
                proof {
                    lemma_mul_inequality(
                        1,
                        count as int,
                        vault.reward_rate as int * remaining as int,
                    );
                }
                return Err(ErrorCode::ArithmeticOverflow);
            },
        };
        let owed = match owed_per_slot.checked_mul(count) {
            Some(v) => v,
            None => {
                return Err(ErrorCode::ArithmeticOverflow);
            },
        };
        let total = match scaled.checked_add(owed) {
            Some(v) => v,
            None => {
                return Err(ErrorCode::ArithmeticOverflow);
            },
        };
        vault.reward_rate = total / duration / count;
        Ok(())
    }
}

} // verus!
