//! Managing a vault's funder slots: delegated identities that may top up the
//! reward pool besides the authority itself.

use vstd::prelude::*;

use crate::state::{ErrorCode, Vault, VaultStatus, MAX_FUNDER_LIMIT};

verus! {

/// All vault fields but the funder slots stand still.
pub open spec fn funders_only_changed(v0: Vault, v1: Vault) -> bool {
    &&& v1.authority == v0.authority
    &&& v1.status == v0.status
    &&& v1.reward_mint == v0.reward_mint
    &&& v1.reward_mint_account == v0.reward_mint_account
    &&& v1.reward_duration == v0.reward_duration
    &&& v1.reward_duration_deadline == v0.reward_duration_deadline
    &&& v1.reward_rate == v0.reward_rate
    &&& v1.stake_token_count == v0.stake_token_count
    &&& v1.staked_count == v0.staked_count
    &&& v1.user_count == v0.user_count
}

/// Outcome of `authorize_funder`, decided by the first violated condition.
pub open spec fn authorize_funder_check(vault: Vault, funder: u64) -> Result<(), ErrorCode> {
    if vault.status != VaultStatus::Initialized {
        Err(ErrorCode::VaultNotReady)
    } else if funder == vault.authority {
        Err(ErrorCode::OwnerCanNotBeFunder)
    } else if vault.funders@.contains(funder) {
        Err(ErrorCode::FunderAlreadyAuthorized)
    } else if vault.funders@.len() >= MAX_FUNDER_LIMIT {
        Err(ErrorCode::FunderAlreadyFull)
    } else {
        Ok(())
    }
}

/// Outcome of `unauthorize_funder`, decided by the first violated condition.
pub open spec fn unauthorize_funder_check(vault: Vault, funder: u64) -> Result<(), ErrorCode> {
    if vault.status != VaultStatus::Initialized {
        Err(ErrorCode::VaultNotReady)
    } else if !vault.funders@.contains(funder) {
        Err(ErrorCode::FunderDoesNotExist)
    } else {
        Ok(())
    }
}

/// Grants `funder` a slot. The authority itself is refused, a present funder
/// is refused, and a full slot array is refused; a failure leaves the vault
/// unchanged.
pub fn authorize_funder(vault: &mut Vault, funder: u64) -> (r: Result<(), ErrorCode>)
    requires
        old(vault).wf(),
    ensures
        final(vault).wf(),
        r == authorize_funder_check(*old(vault), funder),
        r is Ok ==> final(vault).funders@ == old(vault).funders@.push(funder)
            && funders_only_changed(*old(vault), *final(vault)),
        r is Err ==> *final(vault) == *old(vault),
{
    if vault.status != VaultStatus::Initialized {
        return Err(ErrorCode::VaultNotReady);
    }
    if funder == vault.authority {
        return Err(ErrorCode::OwnerCanNotBeFunder);
    }
    if vault.funders.contains(funder) {
        return Err(ErrorCode::FunderAlreadyAuthorized);
    }
    if vault.funders.len() >= MAX_FUNDER_LIMIT {
        return Err(ErrorCode::FunderAlreadyFull);
    }
    vault.funders.insert(funder);
    Ok(())
}

/// Clears `funder`'s slot; an identity that holds no slot is refused, and a
/// failure leaves the vault unchanged.
pub fn unauthorize_funder(vault: &mut Vault, funder: u64) -> (r: Result<(), ErrorCode>)
    requires
        old(vault).wf(),
    ensures
        final(vault).wf(),
        r == unauthorize_funder_check(*old(vault), funder),
        r is Ok ==> final(vault).funders@ == old(vault).funders@.remove(
            old(vault).funders@.index_of(funder),
        ) && !final(vault).funders@.contains(funder)
            && funders_only_changed(*old(vault), *final(vault)),
        r is Err ==> *final(vault) == *old(vault),
{
    if vault.status != VaultStatus::Initialized {
        return Err(ErrorCode::VaultNotReady);
    }
    if !vault.funders.contains(funder) {
        return Err(ErrorCode::FunderDoesNotExist);
    }
    vault.funders.remove(funder);
    Ok(())
}

} // verus!
