use private_score::errors::PrivateScoreError;
use private_score::instructions::{deposit, initialize_pool, withdraw};
use private_score::lending_pool::LendingPool;

fn key(n: u8) -> [u8; 32] {
    let mut k = [0u8; 32];
    k[0] = n;
    k
}

fn test_pool() -> LendingPool {
    initialize_pool(7, key(1), key(2), key(3), 15000, 12000, 500, 650, 1000).unwrap()
}

#[test]
fn initialize_pool_sets_fields() {
    let pool = test_pool();
    assert_eq!(pool.pool_id, 7);
    assert_eq!(pool.base_collateral_ratio, 15000);
    assert_eq!(pool.credit_collateral_ratio, 12000);
    assert_eq!(pool.liquidation_threshold, 11000);
    assert_eq!(pool.interest_rate, 500);
    assert_eq!(pool.min_credit_score, 650);
    assert_eq!(pool.total_deposits, 0);
    assert_eq!(pool.total_borrowed, 0);
    assert_eq!(pool.active_loans, 0);
    assert!(pool.is_active);
    assert!(pool.accepts_credit_loans);
    assert_eq!(pool.created_at, 1000);
}

#[test]
fn initialize_pool_rejects_bad_ratios() {
    let e = initialize_pool(0, key(1), key(2), key(3), 9999, 9000, 500, 650, 0);
    assert_eq!(e.unwrap_err(), PrivateScoreError::InvalidCollateralRatio);
    let e = initialize_pool(0, key(1), key(2), key(3), 15000, 9999, 500, 650, 0);
    assert_eq!(e.unwrap_err(), PrivateScoreError::InvalidCollateralRatio);
    let e = initialize_pool(0, key(1), key(2), key(3), 12000, 15000, 500, 650, 0);
    assert_eq!(e.unwrap_err(), PrivateScoreError::InvalidCollateralRatio);
}

#[test]
fn initialize_pool_rejects_bad_rate_and_score() {
    let e = initialize_pool(0, key(1), key(2), key(3), 15000, 12000, 5001, 650, 0);
    assert_eq!(e.unwrap_err(), PrivateScoreError::InvalidInterestRate);
    let e = initialize_pool(0, key(1), key(2), key(3), 15000, 12000, 500, 299, 0);
    assert_eq!(e.unwrap_err(), PrivateScoreError::InvalidCreditScore);
    let e = initialize_pool(0, key(1), key(2), key(3), 15000, 12000, 500, 851, 0);
    assert_eq!(e.unwrap_err(), PrivateScoreError::InvalidCreditScore);
}

#[test]
fn deposit_and_withdraw_move_totals() {
    let mut pool = test_pool();
    deposit(&mut pool, 500, 1010).unwrap();
    assert_eq!(pool.total_deposits, 500);
    assert_eq!(pool.updated_at, 1010);
    withdraw(&mut pool, 200, 1020).unwrap();
    assert_eq!(pool.total_deposits, 300);
    assert_eq!(pool.updated_at, 1020);
    assert!(pool.total_borrowed <= pool.total_deposits);
}

#[test]
fn deposit_rejects_zero_and_inactive() {
    let mut pool = test_pool();
    assert_eq!(deposit(&mut pool, 0, 0).unwrap_err(), PrivateScoreError::InvalidAmount);
    pool.is_active = false;
    assert_eq!(deposit(&mut pool, 5, 0).unwrap_err(), PrivateScoreError::PoolInactive);
    assert_eq!(pool.total_deposits, 0);
}

#[test]
fn withdraw_rejects_more_than_liquidity() {
    let mut pool = test_pool();
    deposit(&mut pool, 100, 0).unwrap();
    pool.total_borrowed = 40;
    let e = withdraw(&mut pool, 61, 0);
    assert_eq!(e.unwrap_err(), PrivateScoreError::InsufficientLiquidity);
    assert_eq!(pool.total_deposits, 100);
    withdraw(&mut pool, 60, 0).unwrap();
    assert_eq!(pool.total_deposits, 40);
    assert!(pool.total_borrowed <= pool.total_deposits);
    assert_eq!(withdraw(&mut pool, 0, 0).unwrap_err(), PrivateScoreError::InvalidAmount);
}

#[test]
fn available_liquidity_floors_at_zero() {
    let mut pool = test_pool();
    pool.total_deposits = 100;
    pool.total_borrowed = 30;
    assert_eq!(pool.available_liquidity(), 70);
    pool.total_borrowed = 130;
    assert_eq!(pool.available_liquidity(), 0);
}

#[test]
fn utilization_rate_in_basis_points() {
    let mut pool = test_pool();
    assert_eq!(pool.utilization_rate(), 0);
    pool.total_deposits = 200;
    pool.total_borrowed = 50;
    assert_eq!(pool.utilization_rate(), 2500);
    pool.total_borrowed = 200;
    assert_eq!(pool.utilization_rate(), 10000);
}

#[test]
fn select_collateral_ratio_rewards_verified() {
    let mut pool = test_pool();
    assert_eq!(pool.select_collateral_ratio(true), 12000);
    assert_eq!(pool.select_collateral_ratio(false), 15000);
    pool.accepts_credit_loans = false;
    assert_eq!(pool.select_collateral_ratio(true), 15000);
}

#[test]
fn required_collateral_truncates() {
    let pool = test_pool();
    assert_eq!(pool.get_required_collateral(100, false), 150);
    assert_eq!(pool.get_required_collateral(100, true), 120);
    // 33 * 15000 / 10000 = 49.5, truncated toward zero.
    assert_eq!(pool.get_required_collateral(33, false), 49);
}
