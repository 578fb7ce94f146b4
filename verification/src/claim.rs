//! The claim transition: converting a user's pending entitlement into a
//! payout, bounded by the reward liquidity the pool actually holds.

use vstd::prelude::*;

use crate::state::{ErrorCode, User, Vault, VaultStatus};
use crate::util::{accrue_ok, accrued_pending, earned};

verus! {

/// What a claim pays out: the accrued pending reward, capped by the liquidity
/// available in the pool's reward account. A shortfall is no error; the rest
/// stays pending for a later claim.
pub open spec fn claim_payable(user: User, rate: u128, now: u64, available: u64) -> int {
    let pending = accrued_pending(user, rate, now);
    if pending <= available {
        pending
    } else {
        available as int
    }
}

/// Outcome of `claim`, decided by the first violated condition.
pub open spec fn claim_check(vault: Vault, user: User, available: u64, now: u64) -> Result<
    (),
    ErrorCode,
> {
    if vault.status != VaultStatus::Initialized {
        Err(ErrorCode::VaultNotReady)
    } else if !accrue_ok(user, vault.reward_rate, now) {
        Err(ErrorCode::ArithmeticOverflow)
    } else if user.reward_earned_claimed + claim_payable(user, vault.reward_rate, now, available)
        > u64::MAX {
        Err(ErrorCode::ArithmeticOverflow)
    } else {
        Ok(())
    }
}

/// How the user record looks after a successful claim that paid `payable`.
pub open spec fn claim_post(
    v0: Vault,
    u0: User,
    u1: User,
    available: u64,
    now: u64,
    payable: u64,
) -> bool {
    &&& payable == claim_payable(u0, v0.reward_rate, now, available)
    &&& u1.reward_earned_pending == accrued_pending(u0, v0.reward_rate, now) - payable
    &&& u1.reward_earned_claimed == u0.reward_earned_claimed + payable
    &&& u1.last_stake_time == now
    &&& u1.vault == u0.vault
    &&& u1.key == u0.key
    &&& u1.mint_staked_count == u0.mint_staked_count
    &&& u1.mint_accounts@ == u0.mint_accounts@
}

/// Settles accrual at `now`, then moves the payable amount from the pending
/// counter to the claimed counter and returns it; the caller transfers that
/// amount from the pool's reward account to the user. The payout never
/// exceeds the pending entitlement nor `available`, and value only moves
/// between the two counters. A failure leaves the record unchanged.
pub fn claim(vault: &Vault, user: &mut User, available: u64, now: u64) -> (r: Result<
    u64,
    ErrorCode,
>)
    ensures
        r is Ok <==> claim_check(*vault, *old(user), available, now) is Ok,
        r is Err ==> *final(user) == *old(user) && claim_check(*vault, *old(user), available, now)
            == Err::<(), ErrorCode>(r->Err_0),
        r is Ok ==> claim_post(*vault, *old(user), *final(user), available, now, r->Ok_0),
        r is Ok ==> r->Ok_0 <= available && r->Ok_0 <= accrued_pending(
            *old(user),
            vault.reward_rate,
            now,
        ),
        r is Ok ==> final(user).reward_earned_pending + final(user).reward_earned_claimed
            == accrued_pending(*old(user), vault.reward_rate, now)
            + old(user).reward_earned_claimed,
{
    if vault.status != VaultStatus::Initialized {
        return Err(ErrorCode::VaultNotReady);
    }
    let time_diff = if now >= user.last_stake_time {
        now - user.last_stake_time
    } else {
        0
    };
    let updated_pending = match earned(
        time_diff,
        user.mint_staked_count,
        vault.reward_rate,
        user.reward_earned_pending,
    ) {
        Ok(v) => v,
        Err(code) => {
            return Err(code);
        },
    };
    let payable = if updated_pending <= available {
        updated_pending
    } else {
        available
    };
    let new_claimed = match user.reward_earned_claimed.checked_add(payable) {
        Some(v) => v,
        None => {
            return Err(ErrorCode::ArithmeticOverflow);
        },
    };
    user.reward_earned_pending = updated_pending - payable;
    user.reward_earned_claimed = new_claimed;
    user.last_stake_time = now;
    Ok(payable)
}

} // verus!
