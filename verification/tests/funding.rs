use x_token_stake::fund::fund;
use x_token_stake::funders::{authorize_funder, unauthorize_funder};
use x_token_stake::lifecycle::create_vault;
use x_token_stake::state::{ErrorCode, Vault, CALC_PRECISION, MAX_FUNDER_LIMIT};

fn active_vault(duration: u64, slots: u32) -> Vault {
    let mut vault = Vault::default();
    create_vault(&mut vault, 1, 2, 3, duration, slots).unwrap();
    vault
}

#[test]
fn fund_fresh_period_sets_rate_and_deadline() {
    let mut vault = active_vault(86400, 100);
    fund(&mut vault, 1, 8_640_000_000, 0).unwrap();
    assert_eq!(vault.reward_rate, 1000 * CALC_PRECISION);
    assert_eq!(vault.reward_duration_deadline, 86400);
}

#[test]
fn fund_after_expiry_restarts_the_period() {
    let mut vault = active_vault(100, 10);
    fund(&mut vault, 1, 1000, 0).unwrap();
    assert_eq!(vault.reward_duration_deadline, 100);
    // The period ended; funding again starts a fresh window from `now`.
    fund(&mut vault, 1, 2000, 150).unwrap();
    assert_eq!(vault.reward_rate, 2 * CALC_PRECISION);
    assert_eq!(vault.reward_duration_deadline, 250);
}

#[test]
fn fund_mid_period_carries_remaining_value() {
    let mut vault = active_vault(100, 10);
    fund(&mut vault, 1, 1000, 0).unwrap();
    assert_eq!(vault.reward_rate, CALC_PRECISION);
    // Half the period remains: 500 units still owed, 500 fresh ones arrive,
    // and together they stream over a full new period length.
    fund(&mut vault, 1, 500, 50).unwrap();
    assert_eq!(vault.reward_rate, CALC_PRECISION);
    // The deadline is deliberately not extended by a mid-period top-up.
    assert_eq!(vault.reward_duration_deadline, 100);
}

#[test]
fn fund_by_authorized_funder_succeeds() {
    let mut vault = active_vault(100, 10);
    authorize_funder(&mut vault, 44).unwrap();
    fund(&mut vault, 44, 1000, 0).unwrap();
    assert_eq!(vault.reward_rate, CALC_PRECISION);
}

#[test]
fn fund_by_stranger_is_refused() {
    let mut vault = active_vault(100, 10);
    let r = fund(&mut vault, 99, 1000, 0);
    assert_eq!(r, Err(ErrorCode::NotAuthorized));
    assert_eq!(vault.reward_rate, 0);
}

#[test]
fn fund_uninitialized_vault_is_refused() {
    let mut vault = Vault::default();
    assert_eq!(fund(&mut vault, 1, 1000, 0), Err(ErrorCode::VaultNotReady));
}

#[test]
fn fund_with_zero_slots_is_an_arithmetic_error() {
    let mut vault = active_vault(100, 0);
    assert_eq!(fund(&mut vault, 1, 1000, 0), Err(ErrorCode::ArithmeticOverflow));
}

#[test]
fn fund_deadline_overflow_is_an_arithmetic_error() {
    let mut vault = active_vault(100, 10);
    let r = fund(&mut vault, 1, 1000, u64::MAX);
    assert_eq!(r, Err(ErrorCode::ArithmeticOverflow));
    assert_eq!(vault.reward_duration_deadline, 0);
}

#[test]
fn authorize_vault_authority_is_refused() {
    let mut vault = active_vault(100, 10);
    let r = authorize_funder(&mut vault, 1);
    assert_eq!(r, Err(ErrorCode::OwnerCanNotBeFunder));
    assert_eq!(vault.funders.len(), 0);
}

#[test]
fn authorize_twice_is_refused() {
    let mut vault = active_vault(100, 10);
    authorize_funder(&mut vault, 44).unwrap();
    assert_eq!(authorize_funder(&mut vault, 44), Err(ErrorCode::FunderAlreadyAuthorized));
    assert_eq!(vault.funders.len(), 1);
}

#[test]
fn authorize_beyond_capacity_is_refused() {
    let mut vault = active_vault(100, 10);
    for funder in 0..MAX_FUNDER_LIMIT {
        authorize_funder(&mut vault, 100 + funder as u64).unwrap();
    }
    assert_eq!(authorize_funder(&mut vault, 999), Err(ErrorCode::FunderAlreadyFull));
    assert_eq!(vault.funders.len(), MAX_FUNDER_LIMIT);
}

#[test]
fn authorize_on_uninitialized_vault_is_refused() {
    let mut vault = Vault::default();
    assert_eq!(authorize_funder(&mut vault, 44), Err(ErrorCode::VaultNotReady));
}

#[test]
fn unauthorize_clears_the_slot() {
    let mut vault = active_vault(100, 10);
    authorize_funder(&mut vault, 44).unwrap();
    authorize_funder(&mut vault, 55).unwrap();
    unauthorize_funder(&mut vault, 44).unwrap();
    assert!(!vault.funders.contains(44));
    assert!(vault.funders.contains(55));
    assert_eq!(fund(&mut vault, 44, 1000, 0), Err(ErrorCode::NotAuthorized));
}

#[test]
fn unauthorize_absent_funder_is_refused() {
    let mut vault = active_vault(100, 10);
    assert_eq!(unauthorize_funder(&mut vault, 44), Err(ErrorCode::FunderDoesNotExist));
}
