//! The lending pool ledger: aggregate liquidity, utilization, and the
//! collateral-ratio policy that rewards credit-verified borrowers.
//!
//! The pool's standing invariant is that `total_borrowed` never
//! exceeds `total_deposits`; available liquidity is their difference
//! and never goes negative.

use vstd::prelude::*;
use crate::math::{bps_apply, spec_bps_apply, sat_sub_u64, sub_sat_u64};

verus! {

/// One lending market: its authority, token identifiers, ratio policy,
/// and aggregate liquidity counters.
#[derive(Clone, Copy, Debug)]
pub struct LendingPool {
    pub pool_id: u64,
    pub authority: [u8; 32],
    pub token_mint: [u8; 32],
    pub vault: [u8; 32],
    /// Collateral required from an unverified borrower, in basis points.
    pub base_collateral_ratio: u16,
    /// Reduced collateral for credit-verified borrowers, in basis
    /// points; at most the base ratio, at least 10000.
    pub credit_collateral_ratio: u16,
    /// Collateral-to-debt ratio below which a loan may be liquidated.
    pub liquidation_threshold: u16,
    /// Yearly interest in basis points.
    pub interest_rate: u16,
    pub min_credit_score: u16,
    pub total_deposits: u64,
    pub total_borrowed: u64,
    pub active_loans: u32,
    pub total_interest_accrued: u64,
    pub created_at: i64,
    pub updated_at: i64,
    pub is_active: bool,
    pub accepts_credit_loans: bool,
}

impl LendingPool {
    /// The pool's standing invariant: borrowing never outruns deposits,
    /// and the ratio policy never permits under-100% collateral.
    pub open spec fn wf(self) -> bool {
        &&& self.total_borrowed <= self.total_deposits
        &&& 10000 <= self.credit_collateral_ratio
        &&& self.credit_collateral_ratio <= self.base_collateral_ratio
    }

    /// Deposits not currently lent out; zero when the pool is fully
    /// utilized.
    pub open spec fn spec_available_liquidity(self) -> u64 {
        sat_sub_u64(self.total_deposits, self.total_borrowed)
    }

    pub fn available_liquidity(&self) -> (r: u64)
        ensures
            r == self.spec_available_liquidity(),
    {
        sub_sat_u64(self.total_deposits, self.total_borrowed)
    }

    pub fn has_liquidity(&self, amount: u64) -> (r: bool)
        ensures
            r == (self.spec_available_liquidity() >= amount),
    {
        self.available_liquidity() >= amount
    }

    /// Borrowed share of deposits in basis points, zero for an empty
    /// pool; clamped at `u64::MAX`, and at most 10000 whenever the pool
    /// invariant holds.
    pub open spec fn spec_utilization_rate(self) -> u64 {
        if self.total_deposits == 0 {
            0u64
        } else {
            let rate = self.total_borrowed * 10000 / (self.total_deposits as int);
            if rate > u64::MAX {
                u64::MAX
            } else {
                rate as u64
            }
        }
    }

    pub fn utilization_rate(&self) -> (r: u64)
        ensures
            r == self.spec_utilization_rate(),
            self.wf() ==> r <= 10000,
    {
        if self.total_deposits == 0 {
            return 0;
        }
        proof {
            assert((self.total_borrowed as int) * 10000 <= (u64::MAX as int) * 10000)
                by (nonlinear_arith)
                requires
                    0 <= self.total_borrowed as int <= u64::MAX as int,
            ;
            assert(
                self.total_borrowed <= self.total_deposits ==> (self.total_borrowed as int) * 10000
                    / (self.total_deposits as int) <= 10000
            )
                by (nonlinear_arith)
                requires
                    self.total_deposits as int > 0,
            ;
        }
        let scaled: u128 = (self.total_borrowed as u128) * 10000;
        let rate: u128 = scaled / (self.total_deposits as u128);
        if rate > u64::MAX as u128 {
            u64::MAX
        } else {
            rate as u64
        }
    }

    /// The ratio the pool applies to a borrow: the reduced one exactly
    /// when the borrower is credit-verified and the pool accepts
    /// credit-verified loans.
    pub open spec fn spec_select_collateral_ratio(self, is_credit_verified: bool) -> u16 {
        if is_credit_verified && self.accepts_credit_loans {
            self.credit_collateral_ratio
        } else {
            self.base_collateral_ratio
        }
    }

    pub fn select_collateral_ratio(&self, is_credit_verified: bool) -> (r: u16)
        ensures
            r == self.spec_select_collateral_ratio(is_credit_verified),
    {
        if is_credit_verified && self.accepts_credit_loans {
            self.credit_collateral_ratio
        } else {
            self.base_collateral_ratio
        }
    }

    /// Collateral owed on `amount` at the chosen ratio, truncated
    /// toward zero.
    pub open spec fn spec_required_collateral(self, amount: u64, is_credit_verified: bool) -> u64 {
        spec_bps_apply(
            amount,
            if is_credit_verified {
                self.credit_collateral_ratio
            } else {
                self.base_collateral_ratio
            },
        )
    }

    pub fn get_required_collateral(&self, amount: u64, is_credit_verified: bool) -> (r: u64)
        ensures
            r == self.spec_required_collateral(amount, is_credit_verified),
    {
        let ratio = if is_credit_verified {
            self.credit_collateral_ratio
        } else {
            self.base_collateral_ratio
        };
        bps_apply(amount, ratio)
    }
}

/// A lender's stake in one pool, kept for interest accounting.
#[derive(Clone, Copy, Debug)]
pub struct LenderPosition {
    pub owner: [u8; 32],
    pub pool: u64,
    pub deposited_amount: u64,
    pub pool_share_bps: u64,
    pub interest_earned: u64,
    pub interest_withdrawn: u64,
    pub created_at: i64,
    pub last_update: i64,
}

} // verus!
