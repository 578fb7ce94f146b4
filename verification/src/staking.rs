//! Moving one asset into or out of a user's stake.
//!
//! Both transitions settle the accrual first, under the stake size that was
//! in effect over the elapsed interval; mutating the counters first would
//! misattribute the reward for the interval just ended. The custody transfer
//! of the asset itself is the caller's sub-effect once a transition succeeds.

use vstd::prelude::*;

use crate::state::{ErrorCode, User, Vault, VaultStatus, MAX_MINT_LIMIT};
use crate::util::{accrue_ok, accrued_pending, earned};

verus! {

/// All vault fields but the staked-asset counter stand still.
pub open spec fn staked_only_changed(v0: Vault, v1: Vault) -> bool {
    &&& v1.authority == v0.authority
    &&& v1.status == v0.status
    &&& v1.reward_mint == v0.reward_mint
    &&& v1.reward_mint_account == v0.reward_mint_account
    &&& v1.reward_duration == v0.reward_duration
    &&& v1.reward_duration_deadline == v0.reward_duration_deadline
    &&& v1.reward_rate == v0.reward_rate
    &&& v1.stake_token_count == v0.stake_token_count
    &&& v1.user_count == v0.user_count
    &&& v1.funders@ == v0.funders@
}

/// Outcome of `stake`, decided by the first violated condition.
pub open spec fn stake_check(
    vault: Vault,
    user: User,
    mint_account: u64,
    stake_balance: u64,
    now: u64,
) -> Result<(), ErrorCode> {
    if vault.status != VaultStatus::Initialized {
        Err(ErrorCode::CanNotStake)
    } else if user.mint_accounts@.len() >= MAX_MINT_LIMIT {
        Err(ErrorCode::MaxStakeCountReached)
    } else if user.mint_accounts@.contains(mint_account) {
        Err(ErrorCode::AlreadyStakedAccount)
    } else if stake_balance == 0 {
        Err(ErrorCode::NothingToStake)
    } else if !accrue_ok(user, vault.reward_rate, now) {
        Err(ErrorCode::ArithmeticOverflow)
    } else if vault.staked_count == u32::MAX {
        Err(ErrorCode::ArithmeticOverflow)
    } else {
        Ok(())
    }
}

/// How the two records look after a successful `stake` of `mint_account`.
pub open spec fn stake_post(
    v0: Vault,
    u0: User,
    v1: Vault,
    u1: User,
    mint_account: u64,
    now: u64,
) -> bool {
    &&& u1.reward_earned_pending == accrued_pending(u0, v0.reward_rate, now)
    &&& u1.last_stake_time == now
    &&& u1.mint_staked_count == u0.mint_staked_count + 1
    &&& u1.mint_accounts@ == u0.mint_accounts@.push(mint_account)
    &&& u1.vault == u0.vault
    &&& u1.key == u0.key
    &&& u1.reward_earned_claimed == u0.reward_earned_claimed
    &&& v1.staked_count == v0.staked_count + 1
    &&& staked_only_changed(v0, v1)
}

/// Outcome of `unstake`, decided by the first violated condition.
pub open spec fn unstake_check(vault: Vault, user: User, mint_account: u64, now: u64) -> Result<
    (),
    ErrorCode,
> {
    if vault.status != VaultStatus::Initialized {
        Err(ErrorCode::CanNotStake)
    } else if !user.mint_accounts@.contains(mint_account) {
        Err(ErrorCode::StakedAccountDoesNotExist)
    } else if !accrue_ok(user, vault.reward_rate, now) {
        Err(ErrorCode::ArithmeticOverflow)
    } else if vault.staked_count == 0 {
        Err(ErrorCode::ArithmeticOverflow)
    } else {
        Ok(())
    }
}

/// How the two records look after a successful `unstake` of `mint_account`.
pub open spec fn unstake_post(
    v0: Vault,
    u0: User,
    v1: Vault,
    u1: User,
    mint_account: u64,
    now: u64,
) -> bool {
    &&& u1.reward_earned_pending == accrued_pending(u0, v0.reward_rate, now)
    &&& u1.last_stake_time == now
    &&& u1.mint_staked_count == u0.mint_staked_count - 1
    &&& u1.mint_accounts@ == u0.mint_accounts@.remove(u0.mint_accounts@.index_of(mint_account))
    &&& !u1.mint_accounts@.contains(mint_account)
    &&& forall|x: u64|
        x != mint_account ==> (u1.mint_accounts@.contains(x) <==> u0.mint_accounts@.contains(x))
    &&& u1.vault == u0.vault
    &&& u1.key == u0.key
    &&& u1.reward_earned_claimed == u0.reward_earned_claimed
    &&& v1.staked_count == v0.staked_count - 1
    &&& staked_only_changed(v0, v1)
}

/// Brings `mint_account` under the user's stake: settles accrual under the
/// old stake size, then raises both counters and records the asset. The
/// caller hands custody of the asset to the pool once this succeeds; a
/// failure leaves both records unchanged.
pub fn stake(
    vault: &mut Vault,
    user: &mut User,
    mint_account: u64,
    stake_balance: u64,
    now: u64,
) -> (r: Result<(), ErrorCode>)
    requires
        old(vault).wf(),
        old(user).wf(),
    ensures
        final(vault).wf(),
        final(user).wf(),
        r == stake_check(*old(vault), *old(user), mint_account, stake_balance, now),
        r is Ok ==> stake_post(
            *old(vault),
            *old(user),
            *final(vault),
            *final(user),
            mint_account,
            now,
        ),
        r is Err ==> *final(vault) == *old(vault) && *final(user) == *old(user),
{
    if vault.status != VaultStatus::Initialized {
        return Err(ErrorCode::CanNotStake);
    }
    if user.mint_accounts.len() >= MAX_MINT_LIMIT {
        return Err(ErrorCode::MaxStakeCountReached);
    }
    if user.mint_accounts.contains(mint_account) {
        return Err(ErrorCode::AlreadyStakedAccount);
    }
    if stake_balance == 0 {
        return Err(ErrorCode::NothingToStake);
    }
    let time_diff = if now >= user.last_stake_time {
        now - user.last_stake_time
    } else {
        0
    };
    let updated_pending = match earned(
        time_diff,
        user.mint_staked_count,
        vault.reward_rate,
        user.reward_earned_pending,
    ) {
        Ok(v) => v,
        Err(code) => {
            return Err(code);
        },
    };
    let new_staked_count = match vault.staked_count.checked_add(1) {
        Some(v) => v,
        None => {
            return Err(ErrorCode::ArithmeticOverflow);
        },
    };
    user.reward_earned_pending = updated_pending;
    user.last_stake_time = now;
    user.mint_staked_count = user.mint_staked_count + 1;
    user.mint_accounts.insert(mint_account);
    vault.staked_count = new_staked_count;
    Ok(())
}

/// Releases `mint_account` from the user's stake: settles accrual under the
/// old stake size, then lowers both counters and drops the asset. The caller
/// returns custody of the asset to the user once this succeeds; a failure
/// leaves both records unchanged.
pub fn unstake(vault: &mut Vault, user: &mut User, mint_account: u64, now: u64) -> (r: Result<
    (),
    ErrorCode,
>)
    requires
        old(vault).wf(),
        old(user).wf(),
    ensures
        final(vault).wf(),
        final(user).wf(),
        r == unstake_check(*old(vault), *old(user), mint_account, now),
        r is Ok ==> unstake_post(
            *old(vault),
            *old(user),
            *final(vault),
            *final(user),
            mint_account,
            now,
        ),
        r is Err ==> *final(vault) == *old(vault) && *final(user) == *old(user),
{
    if vault.status != VaultStatus::Initialized {
        return Err(ErrorCode::CanNotStake);
    }
    if !user.mint_accounts.contains(mint_account) {
        return Err(ErrorCode::StakedAccountDoesNotExist);
    }
    let time_diff = if now >= user.last_stake_time {
        now - user.last_stake_time
    } else {
        0
    };
    let updated_pending = match earned(
        time_diff,
        user.mint_staked_count,
        vault.reward_rate,
        user.reward_earned_pending,
    ) {
        Ok(v) => v,
        Err(code) => {
            return Err(code);
        },
    };
    if vault.staked_count == 0 {
        return Err(ErrorCode::ArithmeticOverflow);
    }
    user.reward_earned_pending = updated_pending;
    user.last_stake_time = now;
    user.mint_staked_count = user.mint_staked_count - 1;
    user.mint_accounts.remove(mint_account);
    vault.staked_count = vault.staked_count - 1;
    Ok(())
}

} // verus!
