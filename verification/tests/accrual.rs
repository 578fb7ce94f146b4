use x_token_stake::lifecycle::create_vault;
use x_token_stake::state::{ErrorCode, IdSet, User, Vault, CALC_PRECISION};
use x_token_stake::util::{earned, update_rewards};

fn active_vault(duration: u64, slots: u32) -> Vault {
    let mut vault = Vault::default();
    create_vault(&mut vault, 1, 2, 3, duration, slots).unwrap();
    vault
}

fn fresh_user(pending: u64, last_stake_time: u64) -> User {
    User {
        vault: 2,
        key: 9,
        reward_earned_claimed: 0,
        reward_earned_pending: pending,
        mint_staked_count: 0,
        mint_accounts: IdSet::new(),
        last_stake_time,
    }
}

#[test]
fn earned_is_rate_times_stake_times_time() {
    // One asset at 1000 whole units per slot per time unit, over 43200 units.
    let rate = 1000 * CALC_PRECISION;
    assert_eq!(earned(43200, 1, rate, 0), Ok(43_200_000));
    // Three assets over 7 units, on top of 5 already pending.
    assert_eq!(earned(7, 3, rate, 5), Ok(21_005));
}

#[test]
fn earned_truncates_fractional_rate() {
    // A rate below one whole unit per slot per time unit pays nothing.
    let rate = CALC_PRECISION / 2;
    assert_eq!(earned(10, 1, rate, 5), Ok(5));
}

#[test]
fn earned_zero_stake_keeps_pending() {
    assert_eq!(earned(1_000_000, 0, u128::MAX, 42), Ok(42));
}

#[test]
fn earned_overflow_is_an_arithmetic_error() {
    assert_eq!(
        earned(u64::MAX, u32::MAX, u128::MAX, u64::MAX),
        Err(ErrorCode::ArithmeticOverflow)
    );
}

#[test]
fn update_rewards_accrues_and_stamps_time() {
    let mut vault = active_vault(100, 10);
    vault.reward_rate = 2 * CALC_PRECISION;
    let mut user = fresh_user(1, 50);
    user.mint_staked_count = 0;
    update_rewards(&vault, &mut user, 60).unwrap();
    // Zero staked assets: pending unchanged, time stamped.
    assert_eq!(user.reward_earned_pending, 1);
    assert_eq!(user.last_stake_time, 60);
}

#[test]
fn update_rewards_twice_with_same_now_is_a_no_op() {
    let mut vault = active_vault(100, 10);
    vault.reward_rate = 5 * CALC_PRECISION;
    let mut user = fresh_user(0, 0);
    update_rewards(&vault, &mut user, 30).unwrap();
    let first = user.reward_earned_pending;
    update_rewards(&vault, &mut user, 30).unwrap();
    assert_eq!(user.reward_earned_pending, first);
    assert_eq!(user.last_stake_time, 30);
}

#[test]
fn update_rewards_clamps_a_regressing_clock() {
    let vault = active_vault(100, 10);
    let mut user = fresh_user(7, 100);
    // The clock went backwards: no elapsed time, nothing earned.
    update_rewards(&vault, &mut user, 40).unwrap();
    assert_eq!(user.reward_earned_pending, 7);
    assert_eq!(user.last_stake_time, 40);
}

#[test]
fn update_rewards_overflow_leaves_user_unchanged() {
    let mut vault = active_vault(100, 10);
    vault.reward_rate = u128::MAX;
    let mut user = fresh_user(3, 0);
    user.mint_staked_count = 1;
    let r = update_rewards(&vault, &mut user, u64::MAX);
    assert_eq!(r, Err(ErrorCode::ArithmeticOverflow));
    assert_eq!(user.reward_earned_pending, 3);
    assert_eq!(user.last_stake_time, 0);
}
