//! A single borrower's debt lifecycle: origination snapshot,
//! continuously accruing interest, repayment accounting, and the
//! undercollateralization test that drives liquidation.
//!
//! Total debt is always `principal + interest_accrued - amount_repaid`,
//! floored at zero by saturating subtraction, and a closed loan
//! (Repaid, Liquidated, Defaulted) never accrues again.

use vstd::prelude::*;
use crate::math::{
    add_sat_u64, bps_apply, mul_sat_u128, sat_add_u64, sat_sub_i64, sat_sub_u64, spec_bps_apply,
    sub_sat_i64, sub_sat_u64,
};

verus! {

pub const SECONDS_PER_YEAR: i64 = 365 * 24 * 60 * 60;

#[derive(Clone, Copy, PartialEq, Eq, Structural, Debug)]
pub enum LoanStatus {
    Active,
    Repaid,
    Liquidated,
    Defaulted,
}

#[derive(Clone, Copy, PartialEq, Eq, Structural, Debug)]
pub enum LoanType {
    Standard,
    CreditVerified,
}

/// One borrow event and its full audit trail; it survives closure as a
/// record, with the terminal status telling how it ended.
#[derive(Clone, Copy, Debug)]
pub struct Loan {
    pub borrower: [u8; 32],
    /// Identifier of the pool the loan was drawn from.
    pub pool: u64,
    pub principal: u64,
    pub interest_accrued: u64,
    pub amount_repaid: u64,
    pub collateral_locked: u64,
    pub collateral_mint: [u8; 32],
    /// Ratio actually applied, snapshotted at origination.
    pub collateral_ratio: u16,
    /// Yearly rate in basis points, snapshotted at origination.
    pub interest_rate: u16,
    pub loan_type: LoanType,
    pub status: LoanStatus,
    /// Digest of the attestation that opened a credit-verified loan.
    pub proof_hash: [u8; 32],
    /// Commitment the attestation was checked against.
    pub credit_commitment: [u8; 32],
    pub created_at: i64,
    pub last_accrual_at: i64,
    pub closed_at: i64,
    pub repayment_count: u16,
    pub repaid_on_time: bool,
    pub duration: i64,
    /// Zero means no due date.
    pub due_date: i64,
}

/// Caller-supplied terms of a borrow request.
#[derive(Clone, Copy, Debug)]
pub struct LoanParams {
    pub amount: u64,
    pub duration: i64,
    pub collateral_amount: u64,
}

/// Interest owed on `outstanding` at `rate` basis points per year over
/// `elapsed` seconds, truncated toward zero; the wide intermediate
/// product and the final quotient are clamped at their type bounds.
pub open spec fn spec_interest(outstanding: u64, rate: u16, elapsed: i64) -> u64 {
    let wide = outstanding as int * rate as int * elapsed as int;
    let clamped = if wide > u128::MAX as int {
        u128::MAX as int
    } else {
        wide
    };
    let q = clamped / (SECONDS_PER_YEAR as int * 10000);
    if q > u64::MAX as int {
        u64::MAX
    } else {
        q as u64
    }
}

impl Loan {
    /// Outstanding obligation: principal plus accrued interest, less
    /// what was repaid, floored at zero.
    pub open spec fn spec_total_debt(self) -> u64 {
        sat_sub_u64(sat_add_u64(self.principal, self.interest_accrued), self.amount_repaid)
    }

    pub fn total_debt(&self) -> (r: u64)
        ensures
            r == self.spec_total_debt(),
    {
        sub_sat_u64(add_sat_u64(self.principal, self.interest_accrued), self.amount_repaid)
    }

    /// Principal not yet covered by repayments; interest is paid down
    /// first only in the sense that accrual is computed on this value.
    pub open spec fn spec_outstanding_principal(self) -> u64 {
        sat_sub_u64(self.principal, self.amount_repaid)
    }

    pub fn outstanding_principal(&self) -> (r: u64)
        ensures
            r == self.spec_outstanding_principal(),
    {
        sub_sat_u64(self.principal, self.amount_repaid)
    }

    /// Collateral-to-debt ratio in basis points, clamped at `u64::MAX`
    /// and greatest when there is no debt at all.
    pub open spec fn spec_health_factor(self, collateral_value_usd: u64, debt_value_usd: u64) -> u64 {
        if debt_value_usd == 0 {
            u64::MAX
        } else {
            let hf = collateral_value_usd * 10000 / (debt_value_usd as int);
            if hf > u64::MAX as int {
                u64::MAX
            } else {
                hf as u64
            }
        }
    }

    pub fn health_factor(&self, collateral_value_usd: u64, debt_value_usd: u64) -> (r: u64)
        ensures
            r == self.spec_health_factor(collateral_value_usd, debt_value_usd),
    {
        if debt_value_usd == 0 {
            return u64::MAX;
        }
        proof {
            assert((collateral_value_usd as int) * 10000 <= (u64::MAX as int) * 10000)
                by (nonlinear_arith)
                requires
                    0 <= collateral_value_usd as int <= u64::MAX as int,
            ;
        }
        let scaled: u128 = (collateral_value_usd as u128) * 10000;
        let hf: u128 = scaled / (debt_value_usd as u128);
        if hf > u64::MAX as u128 {
            u64::MAX
        } else {
            hf as u64
        }
    }

    /// Liquidation test: the collateral's value no longer covers the
    /// debt scaled by the liquidation threshold. A loan with no debt is
    /// never undercollateralized.
    pub open spec fn spec_is_undercollateralized(
        self,
        collateral_value: u64,
        liquidation_threshold: u16,
    ) -> bool {
        let debt = self.spec_total_debt();
        debt != 0 && (collateral_value as int) < debt * (liquidation_threshold as int) / 10000
    }

    pub fn is_undercollateralized(
        &self,
        collateral_value: u64,
        liquidation_threshold: u16,
    ) -> (r: bool)
        ensures
            r == self.spec_is_undercollateralized(collateral_value, liquidation_threshold),
    {
        let debt = self.total_debt();
        if debt == 0 {
            return false;
        }
        proof {
            assert((debt as int) * (liquidation_threshold as int) <= (u64::MAX as int) * (
            u16::MAX as int)) by (nonlinear_arith)
                requires
                    0 <= debt as int <= u64::MAX as int,
                    0 <= liquidation_threshold as int <= u16::MAX as int,
            ;
        }
        let required: u128 = (debt as u128) * (liquidation_threshold as u128) / 10000;
        (collateral_value as u128) < required
    }

    /// Interest the next accrual at `current_time` will add: zero for a
    /// closed loan or a clock that has not moved past the last accrual.
    pub open spec fn spec_accrual_amount(self, current_time: i64) -> u64 {
        let elapsed = sat_sub_i64(current_time, self.last_accrual_at);
        if elapsed <= 0 || self.status != LoanStatus::Active {
            0u64
        } else {
            spec_interest(self.spec_outstanding_principal(), self.interest_rate, elapsed)
        }
    }

    /// The loan after accrual at `current_time`: interest added and the
    /// accrual clock advanced, or unchanged when there is nothing to
    /// accrue.
    pub open spec fn spec_accrued(self, current_time: i64) -> Loan {
        let elapsed = sat_sub_i64(current_time, self.last_accrual_at);
        if elapsed <= 0 || self.status != LoanStatus::Active {
            self
        } else {
            Loan {
                interest_accrued: sat_add_u64(
                    self.interest_accrued,
                    self.spec_accrual_amount(current_time),
                ),
                last_accrual_at: current_time,
                ..self
            }
        }
    }

    /// Adds the interest earned since the last accrual and advances the
    /// accrual clock; must run before any read of `total_debt` so debt
    /// is never understated. Returns the interest added.
    pub fn accrue_interest(&mut self, current_time: i64) -> (r: u64)
        ensures
            *final(self) == old(self).spec_accrued(current_time),
            r == old(self).spec_accrual_amount(current_time),
    {
        let elapsed = sub_sat_i64(current_time, self.last_accrual_at);
        if elapsed <= 0 || self.status != LoanStatus::Active {
            return 0;
        }
        let outstanding = self.outstanding_principal();
        proof {
            assert((outstanding as int) * (self.interest_rate as int) <= (u64::MAX as int) * (
            u16::MAX as int)) by (nonlinear_arith)
                requires
                    0 <= outstanding as int <= u64::MAX as int,
                    0 <= self.interest_rate as int <= u16::MAX as int,
            ;
        }
        let per_rate: u128 = (outstanding as u128) * (self.interest_rate as u128);
        let wide: u128 = mul_sat_u128(per_rate, elapsed as u128);
        let q: u128 = wide / ((SECONDS_PER_YEAR as u128) * 10000);
        let interest: u64 = if q > u64::MAX as u128 {
            u64::MAX
        } else {
            q as u64
        };
        self.interest_accrued = add_sat_u64(self.interest_accrued, interest);
        self.last_accrual_at = current_time;
        interest
    }

    pub open spec fn spec_is_overdue(self, current_time: i64) -> bool {
        self.due_date > 0 && current_time > self.due_date && self.status == LoanStatus::Active
    }

    pub fn is_overdue(&self, current_time: i64) -> (r: bool)
        ensures
            r == self.spec_is_overdue(current_time),
    {
        self.due_date > 0 && current_time > self.due_date && self.status == LoanStatus::Active
    }

    pub fn is_credit_verified(&self) -> (r: bool)
        ensures
            r == (self.loan_type == LoanType::CreditVerified),
    {
        self.loan_type == LoanType::CreditVerified
    }

    /// Collateral a credit-verified borrower saved against the standard
    /// ratio; zero for a standard loan.
    pub open spec fn spec_collateral_savings(self, standard_ratio: u16) -> u64 {
        if self.loan_type != LoanType::CreditVerified {
            0u64
        } else {
            sat_sub_u64(spec_bps_apply(self.principal, standard_ratio), self.collateral_locked)
        }
    }

    pub fn collateral_savings(&self, standard_ratio: u16) -> (r: u64)
        ensures
            r == self.spec_collateral_savings(standard_ratio),
    {
        if !self.is_credit_verified() {
            return 0;
        }
        let standard = bps_apply(self.principal, standard_ratio);
        sub_sat_u64(standard, self.collateral_locked)
    }
}

/// Accrual is idempotent in the clock: a second accrual at the same
/// time finds no elapsed seconds and changes nothing.
pub proof fn lemma_accrue_idempotent(l: Loan, now: i64)
    ensures
        l.spec_accrued(now).spec_accrued(now) == l.spec_accrued(now),
{
}

} // verus!
