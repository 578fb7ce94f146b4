use x_token_stake::fund::fund;
use x_token_stake::lifecycle::{close_user, close_vault, create_user, create_vault};
use x_token_stake::staking::stake;
use x_token_stake::state::{ErrorCode, IdSet, User, Vault, VaultStatus};

fn active_vault(duration: u64, slots: u32) -> Vault {
    let mut vault = Vault::default();
    create_vault(&mut vault, 1, 2, 3, duration, slots).unwrap();
    vault
}

#[test]
fn create_vault_initializes_the_record() {
    let vault = active_vault(100, 10);
    assert_eq!(vault.authority, 1);
    assert_eq!(vault.status, VaultStatus::Initialized);
    assert_eq!(vault.reward_mint, 2);
    assert_eq!(vault.reward_mint_account, 3);
    assert_eq!(vault.reward_duration, 100);
    assert_eq!(vault.stake_token_count, 10);
    assert_eq!(vault.staked_count, 0);
    assert_eq!(vault.user_count, 0);
    assert_eq!(vault.reward_rate, 0);
    assert_eq!(vault.reward_duration_deadline, 0);
}

#[test]
fn create_vault_short_duration_is_refused() {
    let mut vault = Vault::default();
    let r = create_vault(&mut vault, 1, 2, 3, 0, 10);
    assert_eq!(r, Err(ErrorCode::DurationTooShort));
    assert_eq!(vault.status, VaultStatus::Uninitialized);
}

#[test]
fn create_vault_twice_is_refused() {
    let mut vault = active_vault(100, 10);
    let r = create_vault(&mut vault, 4, 5, 6, 100, 10);
    assert_eq!(r, Err(ErrorCode::AlreadyCreated));
    assert_eq!(vault.authority, 1);
}

#[test]
fn create_user_starts_a_zeroed_ledger() {
    let mut vault = active_vault(100, 10);
    let user = create_user(&mut vault, 2, 9, 77).unwrap();
    assert_eq!(user.vault, 2);
    assert_eq!(user.key, 9);
    assert_eq!(user.reward_earned_claimed, 0);
    assert_eq!(user.reward_earned_pending, 0);
    assert_eq!(user.mint_staked_count, 0);
    assert_eq!(user.mint_accounts.len(), 0);
    assert_eq!(user.last_stake_time, 77);
    assert_eq!(vault.user_count, 1);
}

#[test]
fn create_user_on_uninitialized_vault_is_refused() {
    let mut vault = Vault::default();
    assert_eq!(create_user(&mut vault, 2, 9, 0).unwrap_err(), ErrorCode::VaultNotReady);
}

#[test]
fn close_user_lowers_the_user_count() {
    let mut vault = active_vault(100, 10);
    let mut user = create_user(&mut vault, 2, 9, 0).unwrap();
    close_user(&mut vault, &mut user, 50).unwrap();
    assert_eq!(vault.user_count, 0);
    assert_eq!(user.reward_earned_pending, 0);
    assert_eq!(user.last_stake_time, 50);
}

#[test]
fn close_user_with_staked_assets_is_refused() {
    let mut vault = active_vault(100, 10);
    let mut user = create_user(&mut vault, 2, 9, 0).unwrap();
    stake(&mut vault, &mut user, 501, 1, 0).unwrap();
    assert_eq!(close_user(&mut vault, &mut user, 0), Err(ErrorCode::StakeExist));
    assert_eq!(vault.user_count, 1);
}

#[test]
fn close_user_with_pending_reward_is_refused() {
    let mut vault = active_vault(100, 10);
    let mut user = create_user(&mut vault, 2, 9, 0).unwrap();
    user.reward_earned_pending = 5;
    assert_eq!(close_user(&mut vault, &mut user, 0), Err(ErrorCode::EarnedPendingExist));
    assert_eq!(vault.user_count, 1);
}

#[test]
fn close_user_on_uninitialized_vault_is_refused() {
    let mut vault = Vault::default();
    let mut user = User {
        vault: 2,
        key: 9,
        reward_earned_claimed: 0,
        reward_earned_pending: 0,
        mint_staked_count: 0,
        mint_accounts: IdSet::new(),
        last_stake_time: 0,
    };
    assert_eq!(close_user(&mut vault, &mut user, 0), Err(ErrorCode::VaultNotReady));
}

#[test]
fn close_user_without_registered_users_is_an_arithmetic_error() {
    let mut vault = active_vault(100, 10);
    let mut user = User {
        vault: 2,
        key: 9,
        reward_earned_claimed: 0,
        reward_earned_pending: 0,
        mint_staked_count: 0,
        mint_accounts: IdSet::new(),
        last_stake_time: 0,
    };
    assert_eq!(close_user(&mut vault, &mut user, 0), Err(ErrorCode::ArithmeticOverflow));
}

#[test]
fn close_vault_sweeps_the_record_clean() {
    let mut vault = active_vault(100, 10);
    fund(&mut vault, 1, 1000, 0).unwrap();
    close_vault(&mut vault, 101).unwrap();
    assert_eq!(vault.status, VaultStatus::Uninitialized);
    assert_eq!(vault.authority, 0);
    assert_eq!(vault.reward_rate, 0);
    assert_eq!(vault.reward_duration_deadline, 0);
    assert_eq!(vault.funders.len(), 0);
}

#[test]
fn close_vault_before_the_deadline_is_refused() {
    let mut vault = active_vault(100, 10);
    fund(&mut vault, 1, 1000, 0).unwrap();
    // The period runs to 100; closing at 100 is still too early, and the
    // failure changes nothing.
    let r = close_vault(&mut vault, 100);
    assert_eq!(r, Err(ErrorCode::RewardPeriodNotOver));
    assert_eq!(vault.status, VaultStatus::Initialized);
    assert_eq!(vault.authority, 1);
    assert_eq!(vault.reward_duration_deadline, 100);
}

#[test]
fn close_vault_never_funded_is_refused() {
    let mut vault = active_vault(100, 10);
    assert_eq!(close_vault(&mut vault, 500), Err(ErrorCode::RewardPeriodNotOver));
    assert_eq!(vault.status, VaultStatus::Initialized);
}

#[test]
fn close_vault_with_users_is_refused() {
    let mut vault = active_vault(100, 10);
    fund(&mut vault, 1, 1000, 0).unwrap();
    create_user(&mut vault, 2, 9, 0).unwrap();
    assert_eq!(close_vault(&mut vault, 101), Err(ErrorCode::UserExist));
    assert_eq!(vault.status, VaultStatus::Initialized);
}

#[test]
fn close_vault_with_staked_assets_is_refused() {
    let mut vault = active_vault(100, 10);
    vault.reward_duration_deadline = 1;
    vault.staked_count = 1;
    assert_eq!(close_vault(&mut vault, 5), Err(ErrorCode::StakeExist));
    assert_eq!(vault.staked_count, 1);
}

#[test]
fn close_vault_uninitialized_is_refused() {
    let mut vault = Vault::default();
    assert_eq!(close_vault(&mut vault, 5), Err(ErrorCode::VaultNotReady));
}

#[test]
fn error_messages_name_the_condition() {
    assert_eq!(ErrorCode::DurationTooShort.message(), "Duration can not be shorter than the minimum.");
    assert_eq!(ErrorCode::OwnerCanNotBeFunder.message(), "Owner can not be a funder.");
    assert_eq!(ErrorCode::ArithmeticOverflow.message(), "Arithmetic overflow.");
}

#[test]
fn default_vault_status_is_uninitialized() {
    assert_eq!(VaultStatus::default(), VaultStatus::Uninitialized);
}
