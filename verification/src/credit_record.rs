//! Per-identity credit records: score commitments, tiers, replay
//! nonces, expiry, and borrowing history.

use vstd::prelude::*;
use crate::math::{
    add_sat_i64, add_sat_u32, add_sat_u64, sat_add_i64, sat_add_u32, sat_add_u64,
};

verus! {

/// How long a freshly registered or updated commitment stays valid:
/// thirty days of seconds.
pub const DEFAULT_EXPIRY_DURATION: i64 = 30 * 24 * 60 * 60;

/// Ordered creditworthiness bucket; each tier has a minimum-score floor.
#[derive(Clone, Copy, PartialEq, Eq, Structural, Debug)]
pub enum CreditTier {
    Unknown,
    Poor,
    Fair,
    Good,
    VeryGood,
    Excellent,
}

impl CreditTier {
    /// The lowest score that places a borrower in this tier.
    pub open spec fn spec_min_score(self) -> u16 {
        match self {
            CreditTier::Unknown => 0u16,
            CreditTier::Poor => 300u16,
            CreditTier::Fair => 580u16,
            CreditTier::Good => 670u16,
            CreditTier::VeryGood => 740u16,
            CreditTier::Excellent => 800u16,
        }
    }

    pub fn min_score(&self) -> (r: u16)
        ensures
            r == self.spec_min_score(),
    {
        match self {
            CreditTier::Unknown => 0,
            CreditTier::Poor => 300,
            CreditTier::Fair => 580,
            CreditTier::Good => 670,
            CreditTier::VeryGood => 740,
            CreditTier::Excellent => 800,
        }
    }

    /// The tier encoded by a wire byte; anything out of range is Unknown.
    pub open spec fn spec_from_u8(value: u8) -> CreditTier {
        match value {
            1u8 => CreditTier::Poor,
            2u8 => CreditTier::Fair,
            3u8 => CreditTier::Good,
            4u8 => CreditTier::VeryGood,
            5u8 => CreditTier::Excellent,
            _ => CreditTier::Unknown,
        }
    }

    pub fn from_u8(value: u8) -> (r: CreditTier)
        ensures
            r == CreditTier::spec_from_u8(value),
    {
        match value {
            1 => CreditTier::Poor,
            2 => CreditTier::Fair,
            3 => CreditTier::Good,
            4 => CreditTier::VeryGood,
            5 => CreditTier::Excellent,
            _ => CreditTier::Unknown,
        }
    }

    /// Only the three highest tiers qualify for the reduced ratio.
    pub open spec fn spec_qualifies(self) -> bool {
        self == CreditTier::Good || self == CreditTier::VeryGood || self == CreditTier::Excellent
    }

    pub fn qualifies_for_reduced_collateral(&self) -> (r: bool)
        ensures
            r == self.spec_qualifies(),
    {
        match self {
            CreditTier::Good | CreditTier::VeryGood | CreditTier::Excellent => true,
            _ => false,
        }
    }
}

/// One identity's credit state: the opaque commitment binding its
/// private score, the tier, a strictly-increasing replay nonce, expiry,
/// and loan/repayment counters.
#[derive(Clone, Copy, Debug)]
pub struct CreditRecord {
    pub owner: [u8; 32],
    pub commitment: [u8; 32],
    pub tier: CreditTier,
    pub nonce: u64,
    pub registered_at: i64,
    pub updated_at: i64,
    pub expires_at: i64,
    pub proofs_verified: u32,
    pub loans_taken: u32,
    pub total_borrowed: u64,
    pub total_repaid: u64,
    pub on_time_repayments: u32,
    pub late_repayments: u32,
    pub is_active: bool,
    pub disclosure_enabled: bool,
    pub is_compressed: bool,
    pub merkle_tree: Option<[u8; 32]>,
}

impl CreditRecord {
    /// The record a successful registration creates: nonce 1, empty
    /// history, active, valid for the default expiry window.
    pub open spec fn spec_fresh(
        owner: [u8; 32],
        commitment: [u8; 32],
        tier: CreditTier,
        now: i64,
    ) -> CreditRecord {
        CreditRecord {
            owner,
            commitment,
            tier,
            nonce: 1u64,
            registered_at: now,
            updated_at: now,
            expires_at: sat_add_i64(now, DEFAULT_EXPIRY_DURATION),
            proofs_verified: 0u32,
            loans_taken: 0u32,
            total_borrowed: 0u64,
            total_repaid: 0u64,
            on_time_repayments: 0u32,
            late_repayments: 0u32,
            is_active: true,
            disclosure_enabled: false,
            is_compressed: false,
            merkle_tree: None,
        }
    }

    /// The record after a commitment update: new commitment and tier,
    /// refreshed expiry, and the nonce advanced by one.
    pub open spec fn spec_updated(
        self,
        new_commitment: [u8; 32],
        new_tier: CreditTier,
        now: i64,
    ) -> CreditRecord {
        CreditRecord {
            commitment: new_commitment,
            tier: new_tier,
            updated_at: now,
            expires_at: sat_add_i64(now, DEFAULT_EXPIRY_DURATION),
            nonce: sat_add_u64(self.nonce, 1),
            ..self
        }
    }

    pub open spec fn spec_is_expired(self, current_time: i64) -> bool {
        self.expires_at > 0 && current_time > self.expires_at
    }

    pub fn is_expired(&self, current_time: i64) -> (r: bool)
        ensures
            r == self.spec_is_expired(current_time),
    {
        self.expires_at > 0 && current_time > self.expires_at
    }

    pub open spec fn spec_can_borrow(self, current_time: i64) -> bool {
        self.is_active && !self.spec_is_expired(current_time)
    }

    pub fn can_borrow(&self, current_time: i64) -> (r: bool)
        ensures
            r == self.spec_can_borrow(current_time),
    {
        self.is_active && !self.is_expired(current_time)
    }

    pub fn increment_nonce(&mut self)
        ensures
            *final(self) == (CreditRecord { nonce: sat_add_u64(old(self).nonce, 1), ..*old(self) }),
    {
        self.nonce = add_sat_u64(self.nonce, 1);
    }

    /// Share of on-time repayments in basis points; a borrower with no
    /// repayments at all counts as perfect (10000) rather than failing
    /// on the zero division or penalizing an untested history.
    pub open spec fn spec_repayment_ratio(self) -> u16 {
        let total = self.on_time_repayments as int + self.late_repayments as int;
        if total == 0 {
            10000u16
        } else {
            ((self.on_time_repayments as int * 10000) / total) as u16
        }
    }

    pub fn repayment_ratio(&self) -> (r: u16)
        ensures
            r == self.spec_repayment_ratio(),
            r <= 10000,
    {
        let total: u64 = (self.on_time_repayments as u64) + (self.late_repayments as u64);
        if total == 0 {
            return 10000;
        }
        let scaled: u64 = (self.on_time_repayments as u64) * 10000;
        proof {
            assert(self.on_time_repayments as int * 10000 / (total as int) <= 10000)
                by (nonlinear_arith)
                requires
                    total as int > 0,
                    0 <= self.on_time_repayments as int <= total as int,
            ;
        }
        (scaled / total) as u16
    }

    pub fn update_commitment(
        &mut self,
        new_commitment: [u8; 32],
        new_tier: CreditTier,
        current_time: i64,
    )
        ensures
            *final(self) == old(self).spec_updated(new_commitment, new_tier, current_time),
    {
        self.commitment = new_commitment;
        self.tier = new_tier;
        self.updated_at = current_time;
        self.expires_at = add_sat_i64(current_time, DEFAULT_EXPIRY_DURATION);
        self.increment_nonce();
    }

    pub fn record_loan(&mut self, amount: u64)
        ensures
            *final(self) == (CreditRecord {
                loans_taken: sat_add_u32(old(self).loans_taken, 1),
                total_borrowed: sat_add_u64(old(self).total_borrowed, amount),
                ..*old(self)
            }),
    {
        self.loans_taken = add_sat_u32(self.loans_taken, 1);
        self.total_borrowed = add_sat_u64(self.total_borrowed, amount);
    }

    pub fn record_repayment(&mut self, amount: u64, on_time: bool)
        ensures
            *final(self) == (CreditRecord {
                total_repaid: sat_add_u64(old(self).total_repaid, amount),
                on_time_repayments: if on_time {
                    sat_add_u32(old(self).on_time_repayments, 1)
                } else {
                    old(self).on_time_repayments
                },
                late_repayments: if on_time {
                    old(self).late_repayments
                } else {
                    sat_add_u32(old(self).late_repayments, 1)
                },
                ..*old(self)
            }),
    {
        self.total_repaid = add_sat_u64(self.total_repaid, amount);
        if on_time {
            self.on_time_repayments = add_sat_u32(self.on_time_repayments, 1);
        } else {
            self.late_repayments = add_sat_u32(self.late_repayments, 1);
        }
    }
}

/// The replay nonce strictly increases on every successful commitment
/// update until the counter saturates; it never decreases or repeats,
/// so a proof bound to an earlier nonce can never match the record
/// again.
pub proof fn lemma_update_strictly_increases_nonce(
    r: CreditRecord,
    new_commitment: [u8; 32],
    new_tier: CreditTier,
    now: i64,
)
    requires
        r.nonce < u64::MAX,
    ensures
        r.spec_updated(new_commitment, new_tier, now).nonce > r.nonce,
        r.spec_updated(new_commitment, new_tier, now).nonce == r.nonce + 1,
{
}

} // verus!
