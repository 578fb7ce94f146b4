//! Creation and teardown of vaults and users, with the zero-outstanding-state
//! preconditions that teardown enforces.

use vstd::arithmetic::mul::lemma_mul_basics;
use vstd::prelude::*;

use crate::state::{ErrorCode, IdSet, User, Vault, VaultStatus, MIN_DURATION};
use crate::util::{earned, earned_amount, reward_per_slot};

verus! {

/// Outcome of `create_vault`, decided by the first violated condition.
pub open spec fn create_vault_check(vault: Vault, reward_duration: u64) -> Result<(), ErrorCode> {
    if reward_duration < MIN_DURATION {
        Err(ErrorCode::DurationTooShort)
    } else if vault.status != VaultStatus::Uninitialized {
        Err(ErrorCode::AlreadyCreated)
    } else {
        Ok(())
    }
}

/// Outcome of `create_user`, decided by the first violated condition.
pub open spec fn create_user_check(vault: Vault) -> Result<(), ErrorCode> {
    if vault.status != VaultStatus::Initialized {
        Err(ErrorCode::VaultNotReady)
    } else if vault.user_count == u32::MAX {
        Err(ErrorCode::ArithmeticOverflow)
    } else {
        Ok(())
    }
}

/// Outcome of `close_user`, decided by the first violated condition.
pub open spec fn close_user_check(vault: Vault, user: User) -> Result<(), ErrorCode> {
    if vault.status != VaultStatus::Initialized {
        Err(ErrorCode::VaultNotReady)
    } else if user.mint_staked_count > 0 {
        Err(ErrorCode::StakeExist)
    } else if user.reward_earned_pending > 0 {
        Err(ErrorCode::EarnedPendingExist)
    } else if vault.user_count == 0 {
        Err(ErrorCode::ArithmeticOverflow)
    } else {
        Ok(())
    }
}

/// Outcome of `close_vault`, decided by the first violated condition.
pub open spec fn close_vault_check(vault: Vault, now: u64) -> Result<(), ErrorCode> {
    if vault.status != VaultStatus::Initialized {
        Err(ErrorCode::VaultNotReady)
    } else if vault.user_count > 0 {
        Err(ErrorCode::UserExist)
    } else if vault.staked_count > 0 {
        Err(ErrorCode::StakeExist)
    } else if !(vault.reward_duration_deadline > 0 && now > vault.reward_duration_deadline) {
        Err(ErrorCode::RewardPeriodNotOver)
    } else {
        Ok(())
    }
}

/// All vault fields but the user counter stand still.
pub open spec fn user_count_only_changed(v0: Vault, v1: Vault) -> bool {
    &&& v1.authority == v0.authority
    &&& v1.status == v0.status
    &&& v1.reward_mint == v0.reward_mint
    &&& v1.reward_mint_account == v0.reward_mint_account
    &&& v1.reward_duration == v0.reward_duration
    &&& v1.reward_duration_deadline == v0.reward_duration_deadline
    &&& v1.reward_rate == v0.reward_rate
    &&& v1.stake_token_count == v0.stake_token_count
    &&& v1.staked_count == v0.staked_count
    &&& v1.funders@ == v0.funders@
}

/// Initializes a blank record as an active vault under `authority`: reward
/// curve at rest, counters at zero, no funders. The caller establishes the
/// reward-liquidity account named by `reward_mint_account`. A record already
/// created, or a period below [`MIN_DURATION`], is refused and left
/// unchanged.
pub fn create_vault(
    vault: &mut Vault,
    authority: u64,
    reward_mint: u64,
    reward_mint_account: u64,
    reward_duration: u64,
    stake_token_count: u32,
) -> (r: Result<(), ErrorCode>)
    ensures
        r == create_vault_check(*old(vault), reward_duration),
        r is Err ==> *final(vault) == *old(vault),
        r is Ok ==> *final(vault) == (Vault {
            authority,
            status: VaultStatus::Initialized,
            reward_mint,
            reward_mint_account,
            reward_duration,
            reward_duration_deadline: 0,
            reward_rate: 0,
            stake_token_count,
            staked_count: 0,
            user_count: 0,
            funders: final(vault).funders,
        }) && final(vault).funders@ == Seq::<u64>::empty(),
        r is Ok ==> final(vault).wf(),
{
    if reward_duration < MIN_DURATION {
        return Err(ErrorCode::DurationTooShort);
    }
    if vault.status != VaultStatus::Uninitialized {
        return Err(ErrorCode::AlreadyCreated);
    }
    vault.authority = authority;
    vault.status = VaultStatus::Initialized;
    vault.reward_mint = reward_mint;
    vault.reward_mint_account = reward_mint_account;
    vault.reward_duration = reward_duration;
    vault.reward_duration_deadline = 0;
    vault.reward_rate = 0;
    vault.stake_token_count = stake_token_count;
    vault.staked_count = 0;
    vault.user_count = 0;
    vault.funders = IdSet::new();
    Ok(())
}

/// Registers `owner` as a user of the vault named by `vault_ref`: a zeroed
/// ledger whose accrual clock starts at `now`. Raises the vault's user count;
/// a failure leaves the vault unchanged.
pub fn create_user(vault: &mut Vault, vault_ref: u64, owner: u64, now: u64) -> (r: Result<
    User,
    ErrorCode,
>)
    ensures
        r is Ok <==> create_user_check(*old(vault)) is Ok,
        r is Err ==> *final(vault) == *old(vault) && create_user_check(*old(vault)) == Err::<
            (),
            ErrorCode,
        >(r->Err_0),
        r is Ok ==> final(vault).user_count == old(vault).user_count + 1
            && user_count_only_changed(*old(vault), *final(vault)),
        r is Ok ==> ({
            let user = r->Ok_0;
            &&& user.vault == vault_ref
            &&& user.key == owner
            &&& user.reward_earned_claimed == 0
            &&& user.reward_earned_pending == 0
            &&& user.mint_staked_count == 0
            &&& user.mint_accounts@ == Seq::<u64>::empty()
            &&& user.last_stake_time == now
            &&& user.wf()
        }),
{
    if vault.status != VaultStatus::Initialized {
        return Err(ErrorCode::VaultNotReady);
    }
    let new_user_count = match vault.user_count.checked_add(1) {
        Some(v) => v,
        None => {
            return Err(ErrorCode::ArithmeticOverflow);
        },
    };
    vault.user_count = new_user_count;
    Ok(
        User {
            vault: vault_ref,
            key: owner,
            reward_earned_claimed: 0,
            reward_earned_pending: 0,
            mint_staked_count: 0,
            mint_accounts: IdSet::new(),
            last_stake_time: now,
        },
    )
}

/// Retires a user whose stake and pending reward are both zero: lowers the
/// vault's user count and runs a final, necessarily zero-valued accrual pass
/// to settle the bookkeeping. The caller reclaims the record's storage once
/// this succeeds; a failure leaves both records unchanged.
pub fn close_user(vault: &mut Vault, user: &mut User, now: u64) -> (r: Result<(), ErrorCode>)
    ensures
        r == close_user_check(*old(vault), *old(user)),
        r is Err ==> *final(vault) == *old(vault) && *final(user) == *old(user),
        r is Ok ==> final(vault).user_count == old(vault).user_count - 1
            && user_count_only_changed(*old(vault), *final(vault)),
        r is Ok ==> *final(user) == (User {
            last_stake_time: now,
            ..*old(user)
        }) && final(user).reward_earned_pending == 0,
{
    if vault.status != VaultStatus::Initialized {
        return Err(ErrorCode::VaultNotReady);
    }
    if user.mint_staked_count > 0 {
        return Err(ErrorCode::StakeExist);
    }
    if user.reward_earned_pending > 0 {
        return Err(ErrorCode::EarnedPendingExist);
    }
    if vault.user_count == 0 {
        return Err(ErrorCode::ArithmeticOverflow);
    }
    vault.user_count = vault.user_count - 1;
    let time_diff = if now >= user.last_stake_time {
        now - user.last_stake_time
    } else {
        0
    };
    proof {
        // A zero stake over any interval earns exactly zero, so the accrual
        // formula cannot overflow here.
        lemma_mul_basics(reward_per_slot(vault.reward_rate));
        assert(reward_per_slot(vault.reward_rate) * (user.mint_staked_count as int) == 0);
        assert(earned_amount(
            time_diff,
            user.mint_staked_count,
            vault.reward_rate,
            user.reward_earned_pending,
        ) == 0);
    }
    match earned(time_diff, user.mint_staked_count, vault.reward_rate, user.reward_earned_pending) {
        Ok(updated) => {
            user.reward_earned_pending = updated;
            user.last_stake_time = now;
            Ok(())
        },
        Err(code) => Err(code),
    }
}

/// Tears a vault down once nothing is outstanding: no users, no staked
/// assets, and the reward period set and expired. The record returns to its
/// blank state; the caller sweeps the remaining reward liquidity to the
/// refund destination and reclaims the storage. A failure leaves the vault
/// unchanged — a close never partially applies.
pub fn close_vault(vault: &mut Vault, now: u64) -> (r: Result<(), ErrorCode>)
    ensures
        r == close_vault_check(*old(vault), now),
        r is Err ==> *final(vault) == *old(vault),
        r is Ok ==> final(vault).is_blank() && final(vault).wf(),
{
    if vault.status != VaultStatus::Initialized {
        return Err(ErrorCode::VaultNotReady);
    }
    if vault.user_count > 0 {
        return Err(ErrorCode::UserExist);
    }
    if vault.staked_count > 0 {
        return Err(ErrorCode::StakeExist);
    }
    if !(vault.reward_duration_deadline > 0 && now > vault.reward_duration_deadline) {
        return Err(ErrorCode::RewardPeriodNotOver);
    }
    *vault = Default::default();
    Ok(())
}

} // verus!
