use private_score::credit_record::{CreditTier, DEFAULT_EXPIRY_DURATION};
use private_score::errors::PrivateScoreError;
use private_score::instructions::{
    borrow_standard, initialize_pool, liquidate, register_credit, repay, repay_with_record,
    verify_and_borrow, verify_zk_proof,
};
use private_score::lending_pool::LendingPool;
use private_score::loan::{Loan, LoanStatus, LoanType, SECONDS_PER_YEAR};
use private_score::registry::CreditRegistry;

fn key(n: u8) -> [u8; 32] {
    let mut k = [0u8; 32];
    k[0] = n;
    k
}

fn commitment(n: u8) -> [u8; 32] {
    let mut c = [0u8; 32];
    c[31] = n;
    c
}

fn funded_pool(deposits: u64) -> LendingPool {
    let mut pool =
        initialize_pool(7, key(1), key(2), key(3), 15000, 12000, 500, 650, 1000).unwrap();
    pool.total_deposits = deposits;
    pool
}

fn bare_loan(principal: u64, rate: u16) -> Loan {
    Loan {
        borrower: key(4),
        pool: 7,
        principal,
        interest_accrued: 0,
        amount_repaid: 0,
        collateral_locked: 0,
        collateral_mint: key(5),
        collateral_ratio: 15000,
        interest_rate: rate,
        loan_type: LoanType::Standard,
        status: LoanStatus::Active,
        proof_hash: [0u8; 32],
        credit_commitment: [0u8; 32],
        created_at: 0,
        last_accrual_at: 0,
        closed_at: 0,
        repayment_count: 0,
        repaid_on_time: false,
        duration: 0,
        due_date: 0,
    }
}

#[test]
fn standard_borrow_locks_base_ratio() {
    let mut pool = funded_pool(10_000);
    let loan = borrow_standard(&mut pool, key(4), key(5), 100, 1_000, 2000).unwrap();
    assert_eq!(loan.collateral_locked, 150);
    assert_eq!(loan.collateral_ratio, 15000);
    assert_eq!(loan.loan_type, LoanType::Standard);
    assert_eq!(loan.status, LoanStatus::Active);
    assert_eq!(loan.principal, 100);
    assert_eq!(loan.last_accrual_at, 2000);
    assert_eq!(pool.total_borrowed, 100);
    assert_eq!(pool.active_loans, 1);
    assert!(pool.total_borrowed <= pool.total_deposits);
}

#[test]
fn standard_borrow_rejections() {
    let mut pool = funded_pool(10_000);
    assert_eq!(
        borrow_standard(&mut pool, key(4), key(5), 0, 1_000, 0).unwrap_err(),
        PrivateScoreError::InvalidAmount
    );
    assert_eq!(
        borrow_standard(&mut pool, key(4), key(5), 10_001, 1_000_000, 0).unwrap_err(),
        PrivateScoreError::InsufficientLiquidity
    );
    // 100 at 150% needs 150 of collateral; 149 is not enough.
    assert_eq!(
        borrow_standard(&mut pool, key(4), key(5), 100, 149, 0).unwrap_err(),
        PrivateScoreError::InsufficientCollateral
    );
    pool.is_active = false;
    assert_eq!(
        borrow_standard(&mut pool, key(4), key(5), 100, 1_000, 0).unwrap_err(),
        PrivateScoreError::PoolInactive
    );
    assert_eq!(pool.total_borrowed, 0);
    assert_eq!(pool.active_loans, 0);
}

#[test]
fn verified_borrow_locks_reduced_ratio() {
    let mut pool = funded_pool(10_000);
    let mut registry = CreditRegistry::new();
    register_credit(&mut registry, key(4), commitment(9), 3, 1000).unwrap();
    let mut record = registry.get(&key(4)).unwrap();
    let proof = vec![7u8; 64];
    let inputs = vec![8u8; 32];
    let loan =
        verify_and_borrow(&mut pool, &mut record, key(4), key(5), 100, &proof, &inputs, 1_000, 2000)
            .unwrap();
    assert_eq!(loan.collateral_locked, 120);
    assert_eq!(loan.collateral_ratio, 12000);
    assert_eq!(loan.loan_type, LoanType::CreditVerified);
    assert_eq!(loan.credit_commitment, commitment(9));
    assert_eq!(pool.total_borrowed, 100);
    assert_eq!(pool.active_loans, 1);
    assert_eq!(record.nonce, 2);
    assert_eq!(record.proofs_verified, 1);
    assert_eq!(record.loans_taken, 1);
    assert_eq!(record.total_borrowed, 100);
    // The collateral saved against the standard ratio.
    assert_eq!(loan.collateral_savings(15000), 30);
    assert!(loan.is_credit_verified());
}

#[test]
fn verified_borrow_hashes_the_attestation() {
    let mut pool = funded_pool(10_000);
    let mut registry = CreditRegistry::new();
    register_credit(&mut registry, key(4), commitment(9), 3, 1000).unwrap();
    let mut record = registry.get(&key(4)).unwrap();
    let proof = vec![7u8; 64];
    let inputs = vec![8u8; 32];
    let loan =
        verify_and_borrow(&mut pool, &mut record, key(4), key(5), 100, &proof, &inputs, 1_000, 2000)
            .unwrap();
    let expected = solana_sha256_hasher::hash(&proof).to_bytes();
    assert_eq!(loan.proof_hash, expected);
    // A digest, not the input handed back.
    assert_ne!(&loan.proof_hash[..], &proof[..32]);
    assert_ne!(loan.proof_hash, [0u8; 32]);
}

#[test]
fn verified_borrow_rejections() {
    let mut pool = funded_pool(10_000);
    let mut registry = CreditRegistry::new();
    register_credit(&mut registry, key(4), commitment(9), 3, 1000).unwrap();
    let mut record = registry.get(&key(4)).unwrap();
    let proof = vec![7u8; 64];
    let inputs = vec![8u8; 32];
    assert_eq!(
        verify_and_borrow(&mut pool, &mut record, key(6), key(5), 100, &proof, &inputs, 1_000, 0)
            .unwrap_err(),
        PrivateScoreError::Unauthorized
    );
    assert_eq!(
        verify_and_borrow(&mut pool, &mut record, key(4), key(5), 100, &vec![], &inputs, 1_000, 0)
            .unwrap_err(),
        PrivateScoreError::InvalidProof
    );
    assert_eq!(
        verify_and_borrow(&mut pool, &mut record, key(4), key(5), 100, &proof, &vec![], 1_000, 0)
            .unwrap_err(),
        PrivateScoreError::InvalidPublicInputs
    );
    assert_eq!(
        verify_and_borrow(
            &mut pool,
            &mut record,
            key(4),
            key(5),
            100,
            &vec![7u8; 63],
            &inputs,
            1_000,
            0,
        )
        .unwrap_err(),
        PrivateScoreError::InvalidProof
    );
    assert_eq!(
        verify_and_borrow(
            &mut pool,
            &mut record,
            key(4),
            key(5),
            100,
            &proof,
            &vec![8u8; 31],
            1_000,
            0,
        )
        .unwrap_err(),
        PrivateScoreError::InvalidPublicInputs
    );
    // Past the record's expiry.
    let late = 1000 + DEFAULT_EXPIRY_DURATION + 1;
    assert_eq!(
        verify_and_borrow(&mut pool, &mut record, key(4), key(5), 100, &proof, &inputs, 1_000, late)
            .unwrap_err(),
        PrivateScoreError::CreditExpired
    );
    record.is_active = false;
    assert_eq!(
        verify_and_borrow(&mut pool, &mut record, key(4), key(5), 100, &proof, &inputs, 1_000, 0)
            .unwrap_err(),
        PrivateScoreError::CreditRecordInactive
    );
    record.is_active = true;
    pool.accepts_credit_loans = false;
    assert_eq!(
        verify_and_borrow(&mut pool, &mut record, key(4), key(5), 100, &proof, &inputs, 1_000, 0)
            .unwrap_err(),
        PrivateScoreError::CreditLoansNotAccepted
    );
    // A failed attempt consumed no nonce and moved no totals.
    assert_eq!(record.nonce, 1);
    assert_eq!(record.proofs_verified, 0);
    assert_eq!(pool.total_borrowed, 0);
}

#[test]
fn zk_proof_validation_bounds() {
    let commitment = commitment(9);
    assert_eq!(
        verify_zk_proof(&vec![1u8; 63], &vec![2u8; 32], &commitment).unwrap_err(),
        PrivateScoreError::InvalidProof
    );
    assert_eq!(
        verify_zk_proof(&vec![1u8; 64], &vec![2u8; 31], &commitment).unwrap_err(),
        PrivateScoreError::InvalidPublicInputs
    );
    assert!(verify_zk_proof(&vec![1u8; 64], &vec![2u8; 32], &commitment).unwrap());
}

#[test]
fn one_year_accrual_at_five_percent() {
    let mut loan = bare_loan(1000, 500);
    let added = loan.accrue_interest(SECONDS_PER_YEAR);
    assert_eq!(added, 50);
    assert_eq!(loan.interest_accrued, 50);
    assert_eq!(loan.last_accrual_at, SECONDS_PER_YEAR);
    assert_eq!(loan.total_debt(), 1050);
}

#[test]
fn accrual_is_idempotent_at_same_clock() {
    let mut loan = bare_loan(1000, 500);
    loan.accrue_interest(SECONDS_PER_YEAR);
    let snapshot = loan;
    let added = loan.accrue_interest(SECONDS_PER_YEAR);
    assert_eq!(added, 0);
    assert_eq!(loan.interest_accrued, snapshot.interest_accrued);
    assert_eq!(loan.last_accrual_at, snapshot.last_accrual_at);
    // Nor does an earlier clock accrue anything.
    assert_eq!(loan.accrue_interest(SECONDS_PER_YEAR - 10), 0);
    assert_eq!(loan.interest_accrued, 50);
}

#[test]
fn closed_loan_never_accrues() {
    let mut loan = bare_loan(1000, 500);
    loan.status = LoanStatus::Repaid;
    assert_eq!(loan.accrue_interest(SECONDS_PER_YEAR), 0);
    assert_eq!(loan.interest_accrued, 0);
}

#[test]
fn total_debt_is_principal_plus_interest_minus_repaid() {
    let mut loan = bare_loan(1000, 500);
    loan.interest_accrued = 80;
    loan.amount_repaid = 300;
    assert_eq!(loan.total_debt(), 780);
    assert_eq!(loan.outstanding_principal(), 700);
    // Floored at zero, never negative.
    loan.amount_repaid = 2000;
    assert_eq!(loan.total_debt(), 0);
    assert_eq!(loan.outstanding_principal(), 0);
}

#[test]
fn partial_then_full_repayment() {
    let mut pool = funded_pool(10_000);
    let mut loan = borrow_standard(&mut pool, key(4), key(5), 1000, 10_000, 0).unwrap();
    // One year later the debt is 1050; repay part of it.
    let outcome = repay(&mut pool, &mut loan, key(4), 1000, SECONDS_PER_YEAR).unwrap();
    assert!(!outcome.fully_repaid);
    assert_eq!(outcome.collateral_returned, 0);
    assert_eq!(loan.status, LoanStatus::Active);
    assert_eq!(loan.total_debt(), 50);
    assert_eq!(pool.total_borrowed, 1000);
    assert_eq!(pool.active_loans, 1);
    // Then clear it.
    let outcome = repay(&mut pool, &mut loan, key(4), 50, SECONDS_PER_YEAR).unwrap();
    assert!(outcome.fully_repaid);
    assert!(outcome.on_time);
    assert_eq!(outcome.collateral_returned, 1500);
    assert_eq!(loan.status, LoanStatus::Repaid);
    assert_eq!(loan.closed_at, SECONDS_PER_YEAR);
    assert!(loan.repaid_on_time);
    assert_eq!(loan.repayment_count, 2);
    assert_eq!(pool.total_borrowed, 0);
    assert_eq!(pool.active_loans, 0);
    assert_eq!(pool.total_interest_accrued, 50);
    assert!(pool.total_borrowed <= pool.total_deposits);
}

#[test]
fn repay_rejections() {
    let mut pool = funded_pool(10_000);
    let mut loan = borrow_standard(&mut pool, key(4), key(5), 1000, 10_000, 0).unwrap();
    assert_eq!(
        repay(&mut pool, &mut loan, key(6), 10, 0).unwrap_err(),
        PrivateScoreError::Unauthorized
    );
    assert_eq!(
        repay(&mut pool, &mut loan, key(4), 0, 0).unwrap_err(),
        PrivateScoreError::InvalidAmount
    );
    assert_eq!(
        repay(&mut pool, &mut loan, key(4), 1001, 0).unwrap_err(),
        PrivateScoreError::RepaymentExceedsDebt
    );
    assert_eq!(loan.amount_repaid, 0);
    repay(&mut pool, &mut loan, key(4), 1000, 0).unwrap();
    assert_eq!(loan.status, LoanStatus::Repaid);
    assert_eq!(
        repay(&mut pool, &mut loan, key(4), 1, 0).unwrap_err(),
        PrivateScoreError::LoanNotActive
    );
}

#[test]
fn late_full_repayment_recorded_in_credit() {
    let mut pool = funded_pool(10_000);
    let mut registry = CreditRegistry::new();
    register_credit(&mut registry, key(4), commitment(9), 3, 0).unwrap();
    let mut record = registry.get(&key(4)).unwrap();
    let mut loan = borrow_standard(&mut pool, key(4), key(5), 1000, 10_000, 0).unwrap();
    loan.due_date = 100;
    let outcome = repay_with_record(&mut pool, &mut loan, &mut record, key(4), 1000, 200).unwrap();
    assert!(outcome.fully_repaid);
    assert!(!outcome.on_time);
    assert!(!loan.repaid_on_time);
    assert_eq!(record.total_repaid, 1000);
    assert_eq!(record.on_time_repayments, 0);
    assert_eq!(record.late_repayments, 1);
}

#[test]
fn undercollateralization_boundary() {
    let mut loan = bare_loan(100, 0);
    loan.collateral_locked = 120;
    // Debt 100 at a 110% threshold needs collateral worth 110.
    assert!(loan.is_undercollateralized(109, 11000));
    assert!(!loan.is_undercollateralized(110, 11000));
    // No debt, never liquidatable.
    loan.amount_repaid = 100;
    assert!(!loan.is_undercollateralized(0, 11000));
}

#[test]
fn liquidation_pays_bonus_capped_at_held_collateral() {
    let mut pool = funded_pool(10_000);
    pool.total_borrowed = 100;
    pool.active_loans = 1;
    let mut loan = bare_loan(100, 0);
    loan.collateral_locked = 120;
    // Valued at 109 the loan is below the 110 floor; the vault holds
    // plenty, so the liquidator takes 120 + 6 bonus = 126.
    let outcome = liquidate(&mut pool, &mut loan, 109, 200, 50).unwrap();
    assert_eq!(outcome.debt_repaid, 100);
    assert_eq!(outcome.bonus, 6);
    assert_eq!(outcome.collateral_to_liquidator, 126);
    assert_eq!(loan.status, LoanStatus::Liquidated);
    assert_eq!(loan.closed_at, 50);
    assert_eq!(pool.total_borrowed, 0);
    assert_eq!(pool.active_loans, 0);

    // With only 109 actually held, the payout is capped there.
    let mut pool2 = funded_pool(10_000);
    pool2.total_borrowed = 100;
    pool2.active_loans = 1;
    let mut loan2 = bare_loan(100, 0);
    loan2.collateral_locked = 120;
    let outcome2 = liquidate(&mut pool2, &mut loan2, 109, 109, 50).unwrap();
    assert_eq!(outcome2.collateral_to_liquidator, 109);
}

#[test]
fn liquidation_rejections() {
    let mut pool = funded_pool(10_000);
    let mut loan = bare_loan(100, 0);
    loan.collateral_locked = 120;
    assert_eq!(
        liquidate(&mut pool, &mut loan, 110, 120, 0).unwrap_err(),
        PrivateScoreError::LoanNotLiquidatable
    );
    assert_eq!(loan.status, LoanStatus::Active);
    loan.status = LoanStatus::Repaid;
    assert_eq!(
        liquidate(&mut pool, &mut loan, 0, 120, 0).unwrap_err(),
        PrivateScoreError::LoanNotActive
    );
}

#[test]
fn health_factor_values() {
    let loan = bare_loan(100, 0);
    assert_eq!(loan.health_factor(150, 100), 15000);
    assert_eq!(loan.health_factor(0, 100), 0);
    assert_eq!(loan.health_factor(150, 0), u64::MAX);
}

#[test]
fn overdue_only_when_due_date_passed_and_active() {
    let mut loan = bare_loan(100, 0);
    assert!(!loan.is_overdue(1_000_000));
    loan.due_date = 500;
    assert!(!loan.is_overdue(500));
    assert!(loan.is_overdue(501));
    loan.status = LoanStatus::Repaid;
    assert!(!loan.is_overdue(501));
}

#[test]
fn collateral_savings_zero_for_standard() {
    let mut loan = bare_loan(100, 0);
    loan.collateral_locked = 120;
    assert_eq!(loan.collateral_savings(15000), 0);
    loan.loan_type = LoanType::CreditVerified;
    assert_eq!(loan.collateral_savings(15000), 30);
}
