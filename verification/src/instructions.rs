//! The ledger's operations: pool management, credit registration,
//! borrowing (standard and credit-verified), repayment, liquidation,
//! and viewing-grant management.
//!
//! Each operation validates its inputs against the current state and
//! either applies all of its writes or none of them; an error never
//! leaves a record half-updated. Token movement itself happens outside
//! this crate: every operation takes the balances it needs as plain
//! values and reports the transfers its caller must perform.

use vstd::prelude::*;
use crate::credit_record::{CreditRecord, CreditTier, DEFAULT_EXPIRY_DURATION};
use crate::errors::PrivateScoreError;
use crate::ids::{commitment_is_zero, spec_all_zero};
use crate::lending_pool::LendingPool;
use crate::loan::{Loan, LoanStatus, LoanType};
use crate::math::{
    sat_add_u16, sat_add_u32, sat_add_u64, sat_sub_u32, sat_sub_u64, spec_bps_apply,
};
use crate::registry::{spec_has_grant, spec_has_owner, CreditRegistry, GrantBook};
use crate::viewing_key::{AccessLevel, ViewingKey, ViewingKeyStatus, MAX_EXPIRY};

verus! {

/// The SHA-256 digest of a byte string, as the audit trail stores it
/// for each attestation.
pub uninterp spec fn sha256_of(bytes: Seq<u8>) -> Seq<u8>;

/// Relies on `solana_sha256_hasher::hash` (the sha2 backend when not
/// on-chain): returns the 32-byte SHA-256 digest of the input, a
/// function of the bytes alone.
#[verifier::external_body]
fn sha256_digest(bytes: &Vec<u8>) -> (r: [u8; 32])
    ensures
        r@ == sha256_of(bytes@),
{
    solana_sha256_hasher::hash(bytes.as_slice()).to_bytes()
}

/// Validates an attestation against the minimum proof and public-input
/// lengths the verifier service demands. The verification itself is an
/// input-validation placeholder for an opaque external verifier, so a
/// well-formed attestation always passes.
#[allow(unused_variables)]
pub fn verify_zk_proof(
    proof: &Vec<u8>,
    public_inputs: &Vec<u8>,
    expected_commitment: &[u8; 32],
) -> (r: Result<bool, PrivateScoreError>)
    ensures
        proof@.len() < 64 ==> r == Err::<bool, PrivateScoreError>(PrivateScoreError::InvalidProof),
        proof@.len() >= 64 && public_inputs@.len() < 32 ==> r == Err::<bool, PrivateScoreError>(
            PrivateScoreError::InvalidPublicInputs,
        ),
        proof@.len() >= 64 && public_inputs@.len() >= 32 ==> r == Ok::<bool, PrivateScoreError>(
            true,
        ),
{
    if proof.len() < 64 {
        return Err(PrivateScoreError::InvalidProof);
    }
    if public_inputs.len() < 32 {
        return Err(PrivateScoreError::InvalidPublicInputs);
    }
    Ok(true)
}

/// Creates a lending pool after validating its parameter ranges: both
/// collateral ratios at least 100%, the credit ratio no higher than the
/// base, interest capped at 50% a year, and the score threshold within
/// the 300-850 scale.
pub fn initialize_pool(
    pool_id: u64,
    authority: [u8; 32],
    token_mint: [u8; 32],
    vault: [u8; 32],
    base_collateral_ratio: u16,
    credit_collateral_ratio: u16,
    interest_rate: u16,
    min_credit_score: u16,
    now: i64,
) -> (r: Result<LendingPool, PrivateScoreError>)
    ensures
        (base_collateral_ratio < 10000 || credit_collateral_ratio < 10000
            || credit_collateral_ratio > base_collateral_ratio) ==> r == Err::<
            LendingPool,
            PrivateScoreError,
        >(PrivateScoreError::InvalidCollateralRatio),
        (base_collateral_ratio >= 10000 && credit_collateral_ratio >= 10000
            && credit_collateral_ratio <= base_collateral_ratio && interest_rate > 5000) ==> r
            == Err::<LendingPool, PrivateScoreError>(PrivateScoreError::InvalidInterestRate),
        (base_collateral_ratio >= 10000 && credit_collateral_ratio >= 10000
            && credit_collateral_ratio <= base_collateral_ratio && interest_rate <= 5000 && !(
        300 <= min_credit_score <= 850)) ==> r == Err::<LendingPool, PrivateScoreError>(
            PrivateScoreError::InvalidCreditScore,
        ),
        (base_collateral_ratio >= 10000 && credit_collateral_ratio >= 10000
            && credit_collateral_ratio <= base_collateral_ratio && interest_rate <= 5000 && 300
            <= min_credit_score <= 850) ==> r == Ok::<LendingPool, PrivateScoreError>(
            LendingPool {
                pool_id,
                authority,
                token_mint,
                vault,
                base_collateral_ratio,
                credit_collateral_ratio,
                liquidation_threshold: 11000u16,
                interest_rate,
                min_credit_score,
                total_deposits: 0u64,
                total_borrowed: 0u64,
                active_loans: 0u32,
                total_interest_accrued: 0u64,
                created_at: now,
                updated_at: now,
                is_active: true,
                accepts_credit_loans: true,
            },
        ),
        r matches Ok(p) ==> p.wf(),
{
    if base_collateral_ratio < 10000 {
        return Err(PrivateScoreError::InvalidCollateralRatio);
    }
    if credit_collateral_ratio < 10000 {
        return Err(PrivateScoreError::InvalidCollateralRatio);
    }
    if credit_collateral_ratio > base_collateral_ratio {
        return Err(PrivateScoreError::InvalidCollateralRatio);
    }
    if interest_rate > 5000 {
        return Err(PrivateScoreError::InvalidInterestRate);
    }
    if min_credit_score < 300 || min_credit_score > 850 {
        return Err(PrivateScoreError::InvalidCreditScore);
    }
    Ok(
        LendingPool {
            pool_id,
            authority,
            token_mint,
            vault,
            base_collateral_ratio,
            credit_collateral_ratio,
            liquidation_threshold: 11000,
            interest_rate,
            min_credit_score,
            total_deposits: 0,
            total_borrowed: 0,
            active_loans: 0,
            total_interest_accrued: 0,
            created_at: now,
            updated_at: now,
            is_active: true,
            accepts_credit_loans: true,
        },
    )
}

/// Credits a lender's deposit to the pool total. The caller moves the
/// tokens into the pool vault only when this returns `Ok`.
pub fn deposit(pool: &mut LendingPool, amount: u64, now: i64) -> (r: Result<
    (),
    PrivateScoreError,
>)
    ensures
        ({
            let p = *old(pool);
            if !p.is_active {
                r == Err::<(), PrivateScoreError>(PrivateScoreError::PoolInactive) && *final(pool)
                    == p
            } else if amount == 0 {
                r == Err::<(), PrivateScoreError>(PrivateScoreError::InvalidAmount) && *final(pool)
                    == p
            } else {
                r == Ok::<(), PrivateScoreError>(()) && *final(pool) == (LendingPool {
                    total_deposits: sat_add_u64(p.total_deposits, amount),
                    updated_at: now,
                    ..p
                })
            }
        }),
        old(pool).wf() ==> final(pool).wf(),
{
    if !pool.is_active {
        return Err(PrivateScoreError::PoolInactive);
    }
    if amount == 0 {
        return Err(PrivateScoreError::InvalidAmount);
    }
    pool.total_deposits = crate::math::add_sat_u64(pool.total_deposits, amount);
    pool.updated_at = now;
    Ok(())
}

/// Debits a lender's withdrawal from the pool total; only liquidity
/// not currently lent out may leave. The caller pays the lender from
/// the vault only when this returns `Ok`.
pub fn withdraw(pool: &mut LendingPool, amount: u64, now: i64) -> (r: Result<
    (),
    PrivateScoreError,
>)
    ensures
        ({
            let p = *old(pool);
            if !p.is_active {
                r == Err::<(), PrivateScoreError>(PrivateScoreError::PoolInactive) && *final(pool)
                    == p
            } else if amount == 0 {
                r == Err::<(), PrivateScoreError>(PrivateScoreError::InvalidAmount) && *final(pool)
                    == p
            } else if p.spec_available_liquidity() < amount {
                r == Err::<(), PrivateScoreError>(PrivateScoreError::InsufficientLiquidity)
                    && *final(pool) == p
            } else {
                r == Ok::<(), PrivateScoreError>(()) && *final(pool) == (LendingPool {
                    total_deposits: (p.total_deposits - amount) as u64,
                    updated_at: now,
                    ..p
                })
            }
        }),
        old(pool).wf() ==> final(pool).wf(),
{
    if !pool.is_active {
        return Err(PrivateScoreError::PoolInactive);
    }
    if amount == 0 {
        return Err(PrivateScoreError::InvalidAmount);
    }
    if !pool.has_liquidity(amount) {
        return Err(PrivateScoreError::InsufficientLiquidity);
    }
    pool.total_deposits = crate::math::sub_sat_u64(pool.total_deposits, amount);
    pool.updated_at = now;
    Ok(())
}

/// Registers a credit commitment for an identity that has none yet;
/// registering twice fails, and the all-zero commitment sentinel is
/// rejected before any state is written.
pub fn register_credit(
    registry: &mut CreditRegistry,
    owner: [u8; 32],
    commitment: [u8; 32],
    tier: u8,
    now: i64,
) -> (r: Result<(), PrivateScoreError>)
    ensures
        ({
            let s = old(registry).records@;
            if spec_has_owner(s, owner) {
                r == Err::<(), PrivateScoreError>(PrivateScoreError::CreditRecordExists)
                    && final(registry).records@ == s
            } else if spec_all_zero(commitment@) {
                r == Err::<(), PrivateScoreError>(PrivateScoreError::InvalidCommitment)
                    && final(registry).records@ == s
            } else {
                r == Ok::<(), PrivateScoreError>(()) && final(registry).records@ == s.push(
                    CreditRecord::spec_fresh(owner, commitment, CreditTier::spec_from_u8(tier), now),
                )
            }
        }),
        old(registry).wf() ==> final(registry).wf(),
{
    if let Some(_existing) = registry.find_index(&owner) {
        return Err(PrivateScoreError::CreditRecordExists);
    }
    if commitment_is_zero(&commitment) {
        return Err(PrivateScoreError::InvalidCommitment);
    }
    let record = CreditRecord {
        owner,
        commitment,
        tier: CreditTier::from_u8(tier),
        nonce: 1,
        registered_at: now,
        updated_at: now,
        expires_at: crate::math::add_sat_i64(now, DEFAULT_EXPIRY_DURATION),
        proofs_verified: 0,
        loans_taken: 0,
        total_borrowed: 0,
        total_repaid: 0,
        on_time_repayments: 0,
        late_repayments: 0,
        is_active: true,
        disclosure_enabled: false,
        is_compressed: false,
        merkle_tree: None,
    };
    registry.records.push(record);
    Ok(())
}

/// Replaces the commitment and tier of an existing record, refreshes
/// its expiry, and advances its replay nonce; the identity must already
/// be registered and the new commitment must not be the zero sentinel.
pub fn update_credit(
    registry: &mut CreditRegistry,
    owner: [u8; 32],
    new_commitment: [u8; 32],
    new_tier: u8,
    now: i64,
) -> (r: Result<(), PrivateScoreError>)
    ensures
        ({
            let s = old(registry).records@;
            if !spec_has_owner(s, owner) {
                r == Err::<(), PrivateScoreError>(PrivateScoreError::NotInitialized)
                    && final(registry).records@ == s
            } else if spec_all_zero(new_commitment@) {
                r == Err::<(), PrivateScoreError>(PrivateScoreError::InvalidCommitment)
                    && final(registry).records@ == s
            } else {
                r == Ok::<(), PrivateScoreError>(()) && exists|i: int|
                    0 <= i < s.len() && s[i].owner@ == owner@ && final(registry).records@
                        == s.update(
                        i,
                        s[i].spec_updated(
                            new_commitment,
                            CreditTier::spec_from_u8(new_tier),
                            now,
                        ),
                    )
            }
        }),
        old(registry).wf() ==> final(registry).wf(),
{
    let idx = match registry.find_index(&owner) {
        None => {
            return Err(PrivateScoreError::NotInitialized);
        },
        Some(i) => i,
    };
    if commitment_is_zero(&new_commitment) {
        return Err(PrivateScoreError::InvalidCommitment);
    }
    let mut record = registry.records[idx];
    record.update_commitment(new_commitment, CreditTier::from_u8(new_tier), now);
    let _replaced = registry.records.remove(idx);
    registry.records.insert(idx, record);
    proof {
        assert(registry.records@ =~= old(registry).records@.update(
            idx as int,
            old(registry).records@[idx as int].spec_updated(
                new_commitment,
                CreditTier::spec_from_u8(new_tier),
                now,
            ),
        ));
    }
    Ok(())
}

/// Opens a loan at the standard (base) collateral ratio; no credit
/// record is involved. `collateral_balance` is the collateral the
/// borrower has pledged; the caller locks the required amount and pays
/// out the principal only when this returns `Ok`.
pub fn borrow_standard(
    pool: &mut LendingPool,
    borrower: [u8; 32],
    collateral_mint: [u8; 32],
    amount: u64,
    collateral_balance: u64,
    now: i64,
) -> (r: Result<Loan, PrivateScoreError>)
    ensures
        ({
            let p = *old(pool);
            let required = p.spec_required_collateral(amount, false);
            if !p.is_active {
                r == Err::<Loan, PrivateScoreError>(PrivateScoreError::PoolInactive) && *final(pool)
                    == p
            } else if amount == 0 {
                r == Err::<Loan, PrivateScoreError>(PrivateScoreError::InvalidAmount) && *final(pool)
                    == p
            } else if p.spec_available_liquidity() < amount {
                r == Err::<Loan, PrivateScoreError>(PrivateScoreError::InsufficientLiquidity)
                    && *final(pool) == p
            } else if collateral_balance < required {
                r == Err::<Loan, PrivateScoreError>(PrivateScoreError::InsufficientCollateral)
                    && *final(pool) == p
            } else {
                (r matches Ok(loan) && loan.borrower == borrower && loan.pool == p.pool_id
                    && loan.principal == amount && loan.interest_accrued == 0
                    && loan.amount_repaid == 0 && loan.collateral_locked == required
                    && loan.collateral_mint == collateral_mint && loan.collateral_ratio
                    == p.base_collateral_ratio && loan.interest_rate == p.interest_rate
                    && loan.loan_type == LoanType::Standard && loan.status == LoanStatus::Active
                    && spec_all_zero(loan.proof_hash@) && spec_all_zero(loan.credit_commitment@)
                    && loan.created_at == now && loan.last_accrual_at == now && loan.closed_at == 0
                    && loan.repayment_count == 0 && !loan.repaid_on_time && loan.duration == 0
                    && loan.due_date == 0) && *final(pool) == (LendingPool {
                    total_borrowed: sat_add_u64(p.total_borrowed, amount),
                    active_loans: sat_add_u32(p.active_loans, 1),
                    updated_at: now,
                    ..p
                })
            }
        }),
        old(pool).wf() ==> final(pool).wf(),
{
    if !pool.is_active {
        return Err(PrivateScoreError::PoolInactive);
    }
    if amount == 0 {
        return Err(PrivateScoreError::InvalidAmount);
    }
    if !pool.has_liquidity(amount) {
        return Err(PrivateScoreError::InsufficientLiquidity);
    }
    let required = pool.get_required_collateral(amount, false);
    if collateral_balance < required {
        return Err(PrivateScoreError::InsufficientCollateral);
    }
    let loan = Loan {
        borrower,
        pool: pool.pool_id,
        principal: amount,
        interest_accrued: 0,
        amount_repaid: 0,
        collateral_locked: required,
        collateral_mint,
        collateral_ratio: pool.base_collateral_ratio,
        interest_rate: pool.interest_rate,
        loan_type: LoanType::Standard,
        status: LoanStatus::Active,
        proof_hash: [0u8; 32],
        credit_commitment: [0u8; 32],
        created_at: now,
        last_accrual_at: now,
        closed_at: 0,
        repayment_count: 0,
        repaid_on_time: false,
        duration: 0,
        due_date: 0,
    };
    pool.total_borrowed = crate::math::add_sat_u64(pool.total_borrowed, amount);
    pool.active_loans = crate::math::add_sat_u32(pool.active_loans, 1);
    pool.updated_at = now;
    Ok(loan)
}

/// The reason a credit-verified borrow is rejected, checked in order
/// against the pool, the credit record, the attestation buffers, and
/// the pledged collateral; `None` when the borrow must succeed.
pub open spec fn spec_verify_and_borrow_err(
    p: LendingPool,
    c: CreditRecord,
    borrower: [u8; 32],
    amount: u64,
    proof_len: int,
    public_inputs_len: int,
    collateral_balance: u64,
    now: i64,
) -> Option<PrivateScoreError> {
    if !p.is_active {
        Some(PrivateScoreError::PoolInactive)
    } else if !p.accepts_credit_loans {
        Some(PrivateScoreError::CreditLoansNotAccepted)
    } else if c.owner@ != borrower@ {
        Some(PrivateScoreError::Unauthorized)
    } else if !c.is_active {
        Some(PrivateScoreError::CreditRecordInactive)
    } else if amount == 0 {
        Some(PrivateScoreError::InvalidAmount)
    } else if p.spec_available_liquidity() < amount {
        Some(PrivateScoreError::InsufficientLiquidity)
    } else if !c.spec_can_borrow(now) {
        Some(PrivateScoreError::CreditExpired)
    } else if proof_len == 0 {
        Some(PrivateScoreError::InvalidProof)
    } else if public_inputs_len == 0 {
        Some(PrivateScoreError::InvalidPublicInputs)
    } else if proof_len < 64 {
        Some(PrivateScoreError::InvalidProof)
    } else if public_inputs_len < 32 {
        Some(PrivateScoreError::InvalidPublicInputs)
    } else if collateral_balance < p.spec_required_collateral(amount, true) {
        Some(PrivateScoreError::InsufficientCollateral)
    } else {
        None
    }
}

/// Opens a loan at the reduced collateral ratio after checking the
/// borrower's credit record and attestation. On success the pool's
/// borrowed total and the record's loan statistics move together, and
/// the record's replay nonce strictly advances so the same attestation
/// state can never be presented twice.
pub fn verify_and_borrow(
    pool: &mut LendingPool,
    record: &mut CreditRecord,
    borrower: [u8; 32],
    collateral_mint: [u8; 32],
    amount: u64,
    proof: &Vec<u8>,
    public_inputs: &Vec<u8>,
    collateral_balance: u64,
    now: i64,
) -> (r: Result<Loan, PrivateScoreError>)
    ensures
        ({
            let p = *old(pool);
            let c = *old(record);
            let expected = spec_verify_and_borrow_err(
                p,
                c,
                borrower,
                amount,
                proof@.len() as int,
                public_inputs@.len() as int,
                collateral_balance,
                now,
            );
            match r {
                Err(e) => expected == Some(e) && *final(pool) == p && *final(record) == c,
                Ok(loan) => expected is None && loan.borrower == borrower && loan.pool == p.pool_id
                    && loan.principal == amount && loan.interest_accrued == 0
                    && loan.amount_repaid == 0 && loan.collateral_locked
                    == p.spec_required_collateral(amount, true) && loan.collateral_mint
                    == collateral_mint && loan.collateral_ratio == p.credit_collateral_ratio
                    && loan.interest_rate == p.interest_rate && loan.loan_type
                    == LoanType::CreditVerified && loan.status == LoanStatus::Active
                    && loan.proof_hash@ == sha256_of(proof@) && loan.credit_commitment
                    == c.commitment && loan.created_at == now && loan.last_accrual_at == now
                    && loan.closed_at == 0 && loan.repayment_count == 0 && !loan.repaid_on_time
                    && loan.duration == 0 && loan.due_date == 0 && *final(pool) == (LendingPool {
                    total_borrowed: sat_add_u64(p.total_borrowed, amount),
                    active_loans: sat_add_u32(p.active_loans, 1),
                    updated_at: now,
                    ..p
                }) && *final(record) == (CreditRecord {
                    loans_taken: sat_add_u32(c.loans_taken, 1),
                    total_borrowed: sat_add_u64(c.total_borrowed, amount),
                    proofs_verified: sat_add_u32(c.proofs_verified, 1),
                    nonce: sat_add_u64(c.nonce, 1),
                    ..c
                }),
            }
        }),
        old(pool).wf() ==> final(pool).wf(),
        r matches Ok(_) && old(record).nonce < u64::MAX ==> final(record).nonce > old(
            record,
        ).nonce,
{
    if !pool.is_active {
        return Err(PrivateScoreError::PoolInactive);
    }
    if !pool.accepts_credit_loans {
        return Err(PrivateScoreError::CreditLoansNotAccepted);
    }
    if !crate::ids::key_eq(&record.owner, &borrower) {
        return Err(PrivateScoreError::Unauthorized);
    }
    if !record.is_active {
        return Err(PrivateScoreError::CreditRecordInactive);
    }
    if amount == 0 {
        return Err(PrivateScoreError::InvalidAmount);
    }
    if !pool.has_liquidity(amount) {
        return Err(PrivateScoreError::InsufficientLiquidity);
    }
    if !record.can_borrow(now) {
        return Err(PrivateScoreError::CreditExpired);
    }
    if proof.len() == 0 {
        return Err(PrivateScoreError::InvalidProof);
    }
    if public_inputs.len() == 0 {
        return Err(PrivateScoreError::InvalidPublicInputs);
    }
    let proof_valid = match verify_zk_proof(proof, public_inputs, &record.commitment) {
        Ok(v) => v,
        Err(e) => {
            return Err(e);
        },
    };
    if !proof_valid {
        return Err(PrivateScoreError::ProofVerificationFailed);
    }
    let required = pool.get_required_collateral(amount, true);
    if collateral_balance < required {
        return Err(PrivateScoreError::InsufficientCollateral);
    }
    let digest = sha256_digest(proof);
    let loan = Loan {
        borrower,
        pool: pool.pool_id,
        principal: amount,
        interest_accrued: 0,
        amount_repaid: 0,
        collateral_locked: required,
        collateral_mint,
        collateral_ratio: pool.credit_collateral_ratio,
        interest_rate: pool.interest_rate,
        loan_type: LoanType::CreditVerified,
        status: LoanStatus::Active,
        proof_hash: digest,
        credit_commitment: record.commitment,
        created_at: now,
        last_accrual_at: now,
        closed_at: 0,
        repayment_count: 0,
        repaid_on_time: false,
        duration: 0,
        due_date: 0,
    };
    pool.total_borrowed = crate::math::add_sat_u64(pool.total_borrowed, amount);
    pool.active_loans = crate::math::add_sat_u32(pool.active_loans, 1);
    pool.updated_at = now;
    record.record_loan(amount);
    record.proofs_verified = crate::math::add_sat_u32(record.proofs_verified, 1);
    record.increment_nonce();
    Ok(loan)
}

/// Liquidators are paid this share of the locked collateral on top of
/// it, in basis points.
pub const LIQUIDATION_BONUS_BPS: u16 = 500;

/// What one repayment did: whether it closed the loan, how much
/// collateral goes back to the borrower, and whether the close was on
/// time.
#[derive(Clone, Copy, PartialEq, Eq, Structural, Debug)]
pub struct RepayOutcome {
    pub fully_repaid: bool,
    pub collateral_returned: u64,
    pub on_time: bool,
}

/// What one liquidation did: the debt the liquidator covered and the
/// collateral (locked amount plus bonus, capped at what is held) paid
/// out in exchange.
#[derive(Clone, Copy, PartialEq, Eq, Structural, Debug)]
pub struct LiquidationOutcome {
    pub debt_repaid: u64,
    pub collateral_to_liquidator: u64,
    pub bonus: u64,
}

/// The reason a repayment is rejected; `None` when it must succeed.
/// Debt is measured after interest has accrued up to `now`.
pub open spec fn spec_repay_err(l: Loan, borrower: [u8; 32], amount: u64, now: i64) -> Option<
    PrivateScoreError,
> {
    if l.borrower@ != borrower@ {
        Some(PrivateScoreError::Unauthorized)
    } else if l.status != LoanStatus::Active {
        Some(PrivateScoreError::LoanNotActive)
    } else if amount == 0 {
        Some(PrivateScoreError::InvalidAmount)
    } else if amount > l.spec_accrued(now).spec_total_debt() {
        Some(PrivateScoreError::RepaymentExceedsDebt)
    } else {
        None
    }
}

/// The loan after accrual and the repayment credit, before any close.
pub open spec fn spec_repay_credited(l: Loan, amount: u64, now: i64) -> Loan {
    let accrued = l.spec_accrued(now);
    Loan {
        amount_repaid: sat_add_u64(accrued.amount_repaid, amount),
        repayment_count: sat_add_u16(accrued.repayment_count, 1),
        ..accrued
    }
}

/// The loan a successful repayment leaves behind: closed as Repaid
/// exactly when the debt reached zero.
pub open spec fn spec_repay_final_loan(l: Loan, amount: u64, now: i64) -> Loan {
    let credited = spec_repay_credited(l, amount, now);
    if credited.spec_total_debt() == 0 {
        Loan {
            status: LoanStatus::Repaid,
            closed_at: now,
            repaid_on_time: !credited.spec_is_overdue(now),
            ..credited
        }
    } else {
        credited
    }
}

/// The pool a successful repayment leaves behind: on a full repayment
/// the principal leaves the borrowed total, the loan count drops, and
/// the loan's interest joins the pool's earnings.
pub open spec fn spec_repay_final_pool(p: LendingPool, l: Loan, amount: u64, now: i64) -> LendingPool {
    let credited = spec_repay_credited(l, amount, now);
    if credited.spec_total_debt() == 0 {
        LendingPool {
            total_borrowed: sat_sub_u64(p.total_borrowed, credited.principal),
            active_loans: sat_sub_u32(p.active_loans, 1),
            total_interest_accrued: sat_add_u64(p.total_interest_accrued, credited.interest_accrued),
            updated_at: now,
            ..p
        }
    } else {
        LendingPool { updated_at: now, ..p }
    }
}

/// What a successful repayment reports to the caller.
pub open spec fn spec_repay_outcome(l: Loan, amount: u64, now: i64) -> RepayOutcome {
    let credited = spec_repay_credited(l, amount, now);
    let fully = credited.spec_total_debt() == 0;
    RepayOutcome {
        fully_repaid: fully,
        collateral_returned: if fully {
            credited.collateral_locked
        } else {
            0u64
        },
        on_time: !credited.spec_is_overdue(now),
    }
}

/// Repays part or all of a loan. Interest accrues first so the debt is
/// never understated; a repayment above the debt is rejected whole. A
/// full repayment closes the loan, returns the collateral, and rolls
/// the aggregates back into the pool in the same step. The caller moves
/// `amount` into the vault, and the collateral back, only on `Ok`.
pub fn repay(
    pool: &mut LendingPool,
    loan: &mut Loan,
    borrower: [u8; 32],
    amount: u64,
    now: i64,
) -> (r: Result<RepayOutcome, PrivateScoreError>)
    ensures
        ({
            let p = *old(pool);
            let l = *old(loan);
            match spec_repay_err(l, borrower, amount, now) {
                Some(e) => r == Err::<RepayOutcome, PrivateScoreError>(e) && *final(pool) == p
                    && *final(loan) == l,
                None => r == Ok::<RepayOutcome, PrivateScoreError>(
                    spec_repay_outcome(l, amount, now),
                ) && *final(loan) == spec_repay_final_loan(l, amount, now) && *final(pool)
                    == spec_repay_final_pool(p, l, amount, now),
            }
        }),
        old(pool).wf() ==> final(pool).wf(),
{
    if !crate::ids::key_eq(&loan.borrower, &borrower) {
        return Err(PrivateScoreError::Unauthorized);
    }
    if loan.status != LoanStatus::Active {
        return Err(PrivateScoreError::LoanNotActive);
    }
    let mut working = *loan;
    working.accrue_interest(now);
    if amount == 0 {
        return Err(PrivateScoreError::InvalidAmount);
    }
    let total_debt = working.total_debt();
    if amount > total_debt {
        return Err(PrivateScoreError::RepaymentExceedsDebt);
    }
    working.amount_repaid = crate::math::add_sat_u64(working.amount_repaid, amount);
    working.repayment_count = crate::math::add_sat_u16(working.repayment_count, 1);
    let fully_repaid = working.total_debt() == 0;
    let on_time = !working.is_overdue(now);
    if fully_repaid {
        working.status = LoanStatus::Repaid;
        working.closed_at = now;
        working.repaid_on_time = on_time;
        pool.total_borrowed = crate::math::sub_sat_u64(pool.total_borrowed, working.principal);
        pool.active_loans = crate::math::sub_sat_u32(pool.active_loans, 1);
        pool.total_interest_accrued = crate::math::add_sat_u64(
            pool.total_interest_accrued,
            working.interest_accrued,
        );
    }
    pool.updated_at = now;
    let collateral_returned = if fully_repaid {
        working.collateral_locked
    } else {
        0
    };
    *loan = working;
    Ok(RepayOutcome { fully_repaid, collateral_returned, on_time })
}

/// `repay`, additionally writing the repayment into the borrower's
/// credit record when the loan closes: one atomic step across loan,
/// pool, and record.
pub fn repay_with_record(
    pool: &mut LendingPool,
    loan: &mut Loan,
    record: &mut CreditRecord,
    borrower: [u8; 32],
    amount: u64,
    now: i64,
) -> (r: Result<RepayOutcome, PrivateScoreError>)
    ensures
        ({
            let p = *old(pool);
            let l = *old(loan);
            let c = *old(record);
            match spec_repay_err(l, borrower, amount, now) {
                Some(e) => r == Err::<RepayOutcome, PrivateScoreError>(e) && *final(pool) == p
                    && *final(loan) == l && *final(record) == c,
                None => {
                    let outcome = spec_repay_outcome(l, amount, now);
                    r == Ok::<RepayOutcome, PrivateScoreError>(outcome) && *final(loan)
                        == spec_repay_final_loan(l, amount, now) && *final(pool)
                        == spec_repay_final_pool(p, l, amount, now) && *final(record) == (
                    if outcome.fully_repaid {
                        CreditRecord {
                            total_repaid: sat_add_u64(c.total_repaid, l.principal),
                            on_time_repayments: if outcome.on_time {
                                sat_add_u32(c.on_time_repayments, 1)
                            } else {
                                c.on_time_repayments
                            },
                            late_repayments: if outcome.on_time {
                                c.late_repayments
                            } else {
                                sat_add_u32(c.late_repayments, 1)
                            },
                            ..c
                        }
                    } else {
                        c
                    })
                },
            }
        }),
        old(pool).wf() ==> final(pool).wf(),
{
    let outcome = match repay(pool, loan, borrower, amount, now) {
        Ok(o) => o,
        Err(e) => {
            return Err(e);
        },
    };
    if outcome.fully_repaid {
        record.record_repayment(loan.principal, outcome.on_time);
    }
    Ok(outcome)
}

/// The reason a liquidation is rejected; `None` when it must succeed.
/// The test runs against the debt after accrual up to `now` and the
/// oracle's valuation of the collateral.
pub open spec fn spec_liquidate_err(
    p: LendingPool,
    l: Loan,
    collateral_value: u64,
    now: i64,
) -> Option<PrivateScoreError> {
    if l.status != LoanStatus::Active {
        Some(PrivateScoreError::LoanNotActive)
    } else if !l.spec_accrued(now).spec_is_undercollateralized(
        collateral_value,
        p.liquidation_threshold,
    ) {
        Some(PrivateScoreError::LoanNotLiquidatable)
    } else {
        None
    }
}

/// Closes an undercollateralized loan: the liquidator repays the whole
/// accrued debt into the pool and takes the locked collateral plus a
/// bonus, never more than the collateral actually held. The caller
/// performs those two transfers only on `Ok`.
pub fn liquidate(
    pool: &mut LendingPool,
    loan: &mut Loan,
    collateral_value: u64,
    collateral_held: u64,
    now: i64,
) -> (r: Result<LiquidationOutcome, PrivateScoreError>)
    ensures
        ({
            let p = *old(pool);
            let l = *old(loan);
            let accrued = l.spec_accrued(now);
            match spec_liquidate_err(p, l, collateral_value, now) {
                Some(e) => r == Err::<LiquidationOutcome, PrivateScoreError>(e) && *final(pool)
                    == p && *final(loan) == l,
                None => {
                    let bonus = spec_bps_apply(accrued.collateral_locked, LIQUIDATION_BONUS_BPS);
                    let with_bonus = sat_add_u64(accrued.collateral_locked, bonus);
                    r == Ok::<LiquidationOutcome, PrivateScoreError>(LiquidationOutcome {
                        debt_repaid: accrued.spec_total_debt(),
                        collateral_to_liquidator: if with_bonus <= collateral_held {
                            with_bonus
                        } else {
                            collateral_held
                        },
                        bonus,
                    }) && *final(loan) == (Loan {
                        status: LoanStatus::Liquidated,
                        closed_at: now,
                        ..accrued
                    }) && *final(pool) == (LendingPool {
                        total_borrowed: sat_sub_u64(p.total_borrowed, accrued.principal),
                        active_loans: sat_sub_u32(p.active_loans, 1),
                        updated_at: now,
                        ..p
                    })
                },
            }
        }),
        old(pool).wf() ==> final(pool).wf(),
{
    if loan.status != LoanStatus::Active {
        return Err(PrivateScoreError::LoanNotActive);
    }
    let mut working = *loan;
    working.accrue_interest(now);
    if !working.is_undercollateralized(collateral_value, pool.liquidation_threshold) {
        return Err(PrivateScoreError::LoanNotLiquidatable);
    }
    let debt_repaid = working.total_debt();
    let bonus = crate::math::bps_apply(working.collateral_locked, LIQUIDATION_BONUS_BPS);
    let with_bonus = crate::math::add_sat_u64(working.collateral_locked, bonus);
    let collateral_to_liquidator = if with_bonus <= collateral_held {
        with_bonus
    } else {
        collateral_held
    };
    working.status = LoanStatus::Liquidated;
    working.closed_at = now;
    pool.total_borrowed = crate::math::sub_sat_u64(pool.total_borrowed, working.principal);
    pool.active_loans = crate::math::sub_sat_u32(pool.active_loans, 1);
    pool.updated_at = now;
    *loan = working;
    Ok(LiquidationOutcome { debt_repaid, collateral_to_liquidator, bonus })
}

/// Grants a viewer bounded read access to the owner's credit record
/// and flips the record's disclosure flag on. Re-granting to the same
/// viewer overwrites the prior grant and resets its counters and
/// expiry; there is never more than one grant per (owner, viewer)
/// pair.
pub fn grant_viewing_access(
    book: &mut GrantBook,
    record: &mut CreditRecord,
    owner: [u8; 32],
    viewer: [u8; 32],
    access_level: u8,
    expiry: i64,
    now: i64,
) -> (r: Result<(), PrivateScoreError>)
    ensures
        ({
            let s = old(book).grants@;
            let c = *old(record);
            let level = AccessLevel::spec_from_u8(access_level);
            let fresh = ViewingKey::spec_granted(owner, viewer, level, expiry, now);
            if c.owner@ != owner@ {
                r == Err::<(), PrivateScoreError>(PrivateScoreError::Unauthorized)
                    && final(book).grants@ == s && *final(record) == c
            } else if level == AccessLevel::NoAccess {
                r == Err::<(), PrivateScoreError>(PrivateScoreError::InvalidAccessLevel)
                    && final(book).grants@ == s && *final(record) == c
            } else if expiry <= now {
                r == Err::<(), PrivateScoreError>(PrivateScoreError::InvalidExpiry)
                    && final(book).grants@ == s && *final(record) == c
            } else if expiry > crate::math::sat_add_i64(now, MAX_EXPIRY) {
                r == Err::<(), PrivateScoreError>(PrivateScoreError::ExpiryTooLong)
                    && final(book).grants@ == s && *final(record) == c
            } else {
                r == Ok::<(), PrivateScoreError>(()) && *final(record) == (CreditRecord {
                    disclosure_enabled: true,
                    ..c
                }) && if spec_has_grant(s, owner, viewer) {
                    exists|i: int|
                        0 <= i < s.len() && s[i].owner@ == owner@ && s[i].viewer@ == viewer@
                            && final(book).grants@ == s.update(i, fresh)
                } else {
                    final(book).grants@ == s.push(fresh)
                }
            }
        }),
        old(book).wf() ==> final(book).wf(),
{
    if !crate::ids::key_eq(&record.owner, &owner) {
        return Err(PrivateScoreError::Unauthorized);
    }
    let level = AccessLevel::from_u8(access_level);
    if level == AccessLevel::NoAccess {
        return Err(PrivateScoreError::InvalidAccessLevel);
    }
    if expiry <= now {
        return Err(PrivateScoreError::InvalidExpiry);
    }
    if expiry > crate::math::add_sat_i64(now, MAX_EXPIRY) {
        return Err(PrivateScoreError::ExpiryTooLong);
    }
    let fresh = ViewingKey {
        owner,
        viewer,
        credit_record: owner,
        access_level: level,
        status: ViewingKeyStatus::Active,
        granted_at: now,
        expires_at: expiry,
        last_accessed_at: 0,
        access_count: 0,
        max_accesses: 0,
        one_time_use: false,
        notify_on_access: true,
    };
    match book.find_index(&owner, &viewer) {
        Some(i) => {
            let _replaced = book.grants.remove(i);
            book.grants.insert(i, fresh);
            proof {
                assert(book.grants@ =~= old(book).grants@.update(i as int, fresh));
            }
        },
        None => {
            book.grants.push(fresh);
        },
    }
    record.disclosure_enabled = true;
    Ok(())
}

/// Revokes the grant keyed by (owner, viewer). Only an Active grant can
/// be revoked, and revocation is terminal: nothing reactivates a
/// Revoked grant.
pub fn revoke_viewing_access(book: &mut GrantBook, owner: [u8; 32], viewer: [u8; 32]) -> (r:
    Result<(), PrivateScoreError>)
    ensures
        ({
            let s = old(book).grants@;
            if !spec_has_grant(s, owner, viewer) {
                r == Err::<(), PrivateScoreError>(PrivateScoreError::NotInitialized)
                    && final(book).grants@ == s
            } else {
                exists|i: int|
                    0 <= i < s.len() && s[i].owner@ == owner@ && s[i].viewer@ == viewer@ && (
                    if s[i].status != ViewingKeyStatus::Active {
                        r == Err::<(), PrivateScoreError>(PrivateScoreError::ViewingKeyNotActive)
                            && final(book).grants@ == s
                    } else {
                        r == Ok::<(), PrivateScoreError>(()) && final(book).grants@ == s.update(
                            i,
                            (ViewingKey { status: ViewingKeyStatus::Revoked, ..s[i] }),
                        )
                    })
            }
        }),
        old(book).wf() ==> final(book).wf(),
{
    let idx = match book.find_index(&owner, &viewer) {
        None => {
            return Err(PrivateScoreError::NotInitialized);
        },
        Some(i) => i,
    };
    if book.grants[idx].status != ViewingKeyStatus::Active {
        return Err(PrivateScoreError::ViewingKeyNotActive);
    }
    let mut grant = book.grants[idx];
    grant.revoke();
    let _replaced = book.grants.remove(idx);
    book.grants.insert(idx, grant);
    proof {
        assert(book.grants@ =~= old(book).grants@.update(idx as int, grant));
    }
    Ok(())
}

} // verus!
